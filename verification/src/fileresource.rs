use vstd::prelude::*;

use crate::resource::{ResourceError, Response};

verus! {

/// One item of a walk over a directory and its direct children, as the file system gave it.
#[derive(Debug)]
pub enum WalkEntry<T> {
    /// A directory, by its path.
    Dir(T),
    /// Anything else, by its path as text; `None` when that path is not valid Unicode.
    File(Option<String>),
    /// An item that could not be read, or whose metadata could not be read.
    Unreadable,
}

/// The directories among `entries`, in order.
pub open spec fn dirs_in<T>(entries: Seq<WalkEntry<T>>) -> Seq<T>
    decreases entries.len(),
{
    if entries.len() == 0 {
        Seq::empty()
    } else {
        let before = dirs_in(entries.drop_last());
        match entries.last() {
            WalkEntry::Dir(d) => before.push(d),
            _ => before,
        }
    }
}

/// The files among `entries` whose path is valid Unicode, in order.
pub open spec fn files_in<T>(entries: Seq<WalkEntry<T>>) -> Seq<String>
    decreases entries.len(),
{
    if entries.len() == 0 {
        Seq::empty()
    } else {
        let before = files_in(entries.drop_last());
        match entries.last() {
            WalkEntry::File(Some(f)) => before.push(f),
            _ => before,
        }
    }
}

/// The entries of a walk after its first one, which is the walked directory itself.
pub open spec fn below_root<T>(walk: Seq<WalkEntry<T>>) -> Seq<WalkEntry<T>> {
    if walk.len() == 0 {
        walk
    } else {
        walk.drop_first()
    }
}

/// No item of a walk is listed twice: the directories and files listed are at most as
/// many as the items.
pub proof fn lemma_listing_is_no_larger<T>(entries: Seq<WalkEntry<T>>)
    ensures
        dirs_in(entries).len() + files_in(entries).len() <= entries.len(),
    decreases entries.len(),
{
    if entries.len() > 0 {
        lemma_listing_is_no_larger(entries.drop_last());
    }
}

/// Listing keeps walk order: the listing of two walks one after the other is the
/// listing of the first followed by that of the second.
pub proof fn lemma_listing_keeps_order<T>(first: Seq<WalkEntry<T>>, second: Seq<WalkEntry<T>>)
    ensures
        dirs_in(first + second) == dirs_in(first) + dirs_in(second),
        files_in(first + second) == files_in(first) + files_in(second),
    decreases second.len(),
{
    if second.len() == 0 {
        assert(first + second == first);
    } else {
        lemma_listing_keeps_order(first, second.drop_last());
        assert((first + second).drop_last() == first + second.drop_last());
    }
}

/// Listing one item: a directory is listed as that directory, a file with a Unicode path as
/// that path, whatever its text, and anything else not at all.
pub proof fn lemma_listing_of_one_item<T>(entry: WalkEntry<T>)
    ensures
        dirs_in(seq![entry]) == match entry {
            WalkEntry::Dir(d) => seq![d],
            _ => Seq::<T>::empty(),
        },
        files_in(seq![entry]) == match entry {
            WalkEntry::File(Some(f)) => seq![f],
            _ => Seq::<String>::empty(),
        },
{
    let one = seq![entry];
    assert(one.drop_last() =~= Seq::<WalkEntry<T>>::empty());
    assert(one.last() == entry);
    assert(dirs_in(one.drop_last()) == Seq::<T>::empty());
    assert(files_in(one.drop_last()) == Seq::<String>::empty());
    assert(Seq::<T>::empty().push(entry->Dir_0) =~= seq![entry->Dir_0]);
}

/// Every file with a Unicode path in a walk is listed, and every listed file is one of the
/// walk's files.
pub proof fn lemma_every_file_is_listed<T>(entries: Seq<WalkEntry<T>>)
    ensures
        forall|i: int| 0 <= i < entries.len() ==> match #[trigger] entries[i] {
            WalkEntry::File(Some(f)) => files_in(entries).contains(f),
            WalkEntry::Dir(d) => dirs_in(entries).contains(d),
            _ => true,
        },
        forall|j: int| 0 <= j < files_in(entries).len()
            ==> exists|i: int| 0 <= i < entries.len() && entries[i] == WalkEntry::<T>::File(Some(#[trigger] files_in(entries)[j])),
        forall|j: int| 0 <= j < dirs_in(entries).len()
            ==> exists|i: int| 0 <= i < entries.len() && entries[i] == WalkEntry::<T>::Dir(#[trigger] dirs_in(entries)[j]),
    decreases entries.len(),
{
    if entries.len() > 0 {
        let init = entries.drop_last();
        lemma_every_file_is_listed(init);
        let last = entries.last();
        assert forall|i: int| 0 <= i < entries.len() implies match #[trigger] entries[i] {
            WalkEntry::File(Some(f)) => files_in(entries).contains(f),
            WalkEntry::Dir(d) => dirs_in(entries).contains(d),
            _ => true,
        } by {
            if i < entries.len() - 1 {
                assert(init[i] == entries[i]);
                match entries[i] {
                    WalkEntry::File(Some(f)) => {
                        assert(files_in(init).contains(f));
                        let k = choose|k: int| 0 <= k < files_in(init).len() && files_in(init)[k] == f;
                        assert(files_in(entries)[k] == f);
                    },
                    WalkEntry::Dir(d) => {
                        assert(dirs_in(init).contains(d));
                        let k = choose|k: int| 0 <= k < dirs_in(init).len() && dirs_in(init)[k] == d;
                        assert(dirs_in(entries)[k] == d);
                    },
                    _ => {},
                }
            } else {
                match entries[i] {
                    WalkEntry::File(Some(f)) => {
                        assert(files_in(entries).last() == f);
                    },
                    WalkEntry::Dir(d) => {
                        assert(dirs_in(entries).last() == d);
                    },
                    _ => {},
                }
            }
        }
        assert forall|j: int| 0 <= j < files_in(entries).len()
            implies exists|i: int| 0 <= i < entries.len() && entries[i] == WalkEntry::<T>::File(Some(#[trigger] files_in(entries)[j])) by {
            if j < files_in(init).len() {
                assert(files_in(entries)[j] == files_in(init)[j]);
                let i = choose|i: int| 0 <= i < init.len() && init[i] == WalkEntry::<T>::File(Some(#[trigger] files_in(init)[j]));
                assert(entries[i] == init[i]);
            } else {
                assert(entries[entries.len() - 1] == WalkEntry::<T>::File(Some(files_in(entries)[j])));
            }
        }
        assert forall|j: int| 0 <= j < dirs_in(entries).len()
            implies exists|i: int| 0 <= i < entries.len() && entries[i] == WalkEntry::<T>::Dir(#[trigger] dirs_in(entries)[j]) by {
            if j < dirs_in(init).len() {
                assert(dirs_in(entries)[j] == dirs_in(init)[j]);
                let i = choose|i: int| 0 <= i < init.len() && init[i] == WalkEntry::<T>::Dir(#[trigger] dirs_in(init)[j]);
                assert(entries[i] == init[i]);
            } else {
                assert(entries[entries.len() - 1] == WalkEntry::<T>::Dir(dirs_in(entries)[j]));
            }
        }
    }
}

/// A directory tree on the local file system, crawled from its root path.
#[derive(Clone, Debug)]
pub struct FileResource {
    path: String,
}

impl View for FileResource {
    type V = Seq<char>;

    closed spec fn view(&self) -> Seq<char> {
        self.path@
    }
}

impl FileResource {
    /// A resource rooted at `path`.
    pub fn new(path: String) -> (r: FileResource)
        ensures
            r@ == path@,
    {
        FileResource { path }
    }

    /// The root path of this resource; it is always handed out.
    pub fn get_path(&self) -> (res: Result<String, ResourceError>)
        ensures
            res matches Ok(p) && p@ == self@,
    {
        Ok(self.path.clone())
    }

    /// The directories and files under one directory, from the items of a walk over it and its
    /// direct children: the first item, the directory itself, is skipped; directories go to
    /// `dirs` and files with a Unicode path to `files`, each in walk order; the other items
    /// are dropped.
    pub fn get_dirs_and_leaves<T>(walk: Vec<WalkEntry<T>>) -> (res: Response<T>)
        ensures
            res matches Response::DirFileResponse { dirs, files }
                && dirs@ == dirs_in(below_root(walk@))
                && files@ == files_in(below_root(walk@)),
    {
        let mut entries = walk;
        if entries.len() > 0 {
            entries.remove(0);
        }
        let ghost listed = entries@;
        assert(listed == below_root(walk@));
        let mut dirs: Vec<T> = Vec::new();
        let mut files: Vec<String> = Vec::new();
        broadcast use vstd::std_specs::vec::axiom_spec_into_iter;
        for entry in it: entries.into_iter()
            invariant
                it.seq() == listed,
                dirs@ == dirs_in(listed.take(it.index())),
                files@ == files_in(listed.take(it.index())),
        {
            assert(listed.take(it.index() + 1).drop_last() == listed.take(it.index()));
            match entry {
                WalkEntry::Dir(d) => dirs.push(d),
                WalkEntry::File(Some(f)) => files.push(f),
                _ => {},
            }
        }
        assert(listed.take(listed.len() as int) == listed);
        Response::DirFileResponse { dirs, files }
    }
}

} // verus!
