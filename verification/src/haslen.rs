use vstd::prelude::*;

use crossbeam::channel::Receiver;

use crate::channel::queue_len;

verus! {

/// The interface by which the scheduler reads how much work is waiting.
pub trait HasLen: Send + 'static {
    fn len(&self) -> usize;

    /// Whether a call of `len` gave zero.
    fn is_empty(&self) -> (empty: bool)
        ensures
            exists|n: usize| call_ensures(Self::len, (self,), n) && empty == (n == 0),
    {
        let n = self.len();
        n == 0
    }
}

/// `n` is a number of messages that `receiver` reported holding.
pub closed spec fn reported_len<T>(receiver: &Receiver<T>, n: usize) -> bool {
    call_ensures(queue_len::<T>, (receiver,), n)
}

impl<T: Send + 'static> HasLen for Receiver<T> {
    /// The number of messages that the channel reported.
    fn len(&self) -> (n: usize)
        ensures
            reported_len(self, n),
    {
        queue_len(self)
    }
}

} // verus!
