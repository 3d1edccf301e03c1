use vstd::prelude::*;

verus! {

/// Why a resource could not hand out its root.
#[derive(Clone, Debug, PartialEq, Eq)]
pub struct ResourceError {
    pub message: String,
}

/// What one look at a directory found: the sub-directories, still to be crawled,
/// and the files (as fully qualified paths), to be indexed.
#[derive(Debug)]
pub enum Response<T> {
    DirFileResponse { dirs: Vec<T>, files: Vec<String> },
}

/// Something that can be crawled: it hands out its root, and lists the
/// directories and files found under a directory of it.
pub trait Resource<T>: Send + Sync {
    fn get_dirs_and_leaves(&self, path: &T) -> Response<T>;

    fn get_path(&self) -> Result<T, ResourceError>;
}

} // verus!
