use vstd::prelude::*;

use crossbeam::channel::{Receiver, SendError, Sender};

verus! {

/// The receiving side of a crossbeam channel; nothing of its contents is visible here.
#[verifier::external_type_specification]
#[verifier::external_body]
#[verifier::reject_recursive_types(T)]
pub struct ExReceiver<T>(Receiver<T>);

/// The sending side of a crossbeam channel; nothing of its contents is visible here.
#[verifier::external_type_specification]
#[verifier::external_body]
#[verifier::reject_recursive_types(T)]
pub struct ExSender<T>(Sender<T>);

/// The error of a send on a channel whose receivers are all gone.
#[verifier::external_type_specification]
#[verifier::external_body]
#[verifier::reject_recursive_types(T)]
pub struct ExSendError<T>(SendError<T>);

/// What one bounded wait on a channel gave.
#[derive(Debug)]
pub enum Received<T> {
    /// A message arrived in time.
    Message(T),
    /// The channel stayed empty for the whole wait.
    TimedOut,
    /// The channel is empty and every sender is gone.
    Disconnected,
}

/// Calls `crossbeam::channel::unbounded`, which makes a fresh channel
/// with no bound on its length. Nothing is stated of the pair: their contents
/// are not modelled here.
#[verifier::external_body]
pub(crate) fn unbounded_channel<T>() -> (Sender<T>, Receiver<T>) {
    crossbeam::channel::unbounded()
}

/// Calls `Receiver::recv_timeout` with a wait of `timeout_secs` seconds, and tells its
/// outcome apart: a message, a timeout, or a disconnected channel. Which one comes back
/// rests on the other threads and on time, so nothing is stated of it.
#[verifier::external_body]
pub(crate) fn receive_within<T>(receiver: &Receiver<T>, timeout_secs: u64) -> Received<T> {
    match receiver.recv_timeout(std::time::Duration::from_secs(timeout_secs)) {
        Ok(message) => Received::Message(message),
        Err(crossbeam::channel::RecvTimeoutError::Timeout) => Received::TimedOut,
        Err(crossbeam::channel::RecvTimeoutError::Disconnected) => Received::Disconnected,
    }
}

/// Calls `Sender::send`, which queues `message` on an unbounded channel, or fails
/// when every receiver is gone. Whether it fails rests on the other threads, so
/// nothing is stated of the result.
#[verifier::external_body]
pub(crate) fn send_message<T>(sender: &Sender<T>, message: T) -> Result<(), SendError<T>> {
    sender.send(message)
}

/// Calls `Receiver::len`: the number of messages in the channel at the moment of the call,
/// which other threads change at any time, so nothing is stated of it.
#[verifier::external_body]
pub(crate) fn queue_len<T>(receiver: &Receiver<T>) -> usize {
    receiver.len()
}

/// Calls `Receiver::is_empty`: whether the channel holds no message at the moment of the
/// call, which other threads change at any time, so nothing is stated of it.
#[verifier::external_body]
pub(crate) fn queue_is_empty<T>(receiver: &Receiver<T>) -> bool {
    receiver.is_empty()
}

/// `received` is what a wait of `timeout` seconds on `receiver` gave.
pub closed spec fn wait_gave<T>(receiver: &Receiver<T>, timeout: u64, received: Received<T>) -> bool {
    call_ensures(receive_within::<T>, (receiver, timeout), received)
}

/// Sending `message` on `sender` gave `Ok`: the message was queued.
pub closed spec fn sent_ok<U>(sender: &Sender<U>, message: U) -> bool {
    exists|outcome: Result<(), SendError<U>>| call_ensures(send_message::<U>, (sender, message), outcome) && outcome is Ok
}

/// Sending `message` on `sender` gave `Err`: no receiver was left.
pub closed spec fn send_refused<U>(sender: &Sender<U>, message: U) -> bool {
    exists|outcome: Result<(), SendError<U>>| call_ensures(send_message::<U>, (sender, message), outcome) && outcome is Err
}

/// The receiving end of a channel as one thread uses it: every wait made through it is
/// kept, in order, with what it gave.
#[verifier::reject_recursive_types(T)]
pub struct Inbox<'a, T> {
    receiver: &'a Receiver<T>,
    waits: Ghost<Seq<Received<T>>>,
}

impl<'a, T> Inbox<'a, T> {
    /// The channel this inbox takes from.
    pub closed spec fn channel(&self) -> Receiver<T> {
        *self.receiver
    }

    /// What each wait made through this inbox gave, in order.
    pub closed spec fn waits(&self) -> Seq<Received<T>> {
        self.waits@
    }

    /// An inbox on `receiver` through which no wait was made yet.
    pub fn new(receiver: &'a Receiver<T>) -> (inbox: Inbox<'a, T>)
        ensures
            inbox.channel() == *receiver,
            inbox.waits() == Seq::<Received<T>>::empty(),
    {
        Inbox { receiver, waits: Ghost(Seq::empty()) }
    }

    /// Waits up to `timeout` seconds for one message, and keeps what the wait gave.
    pub fn wait(&mut self, timeout: u64) -> (received: Received<T>)
        ensures
            final(self).channel() == old(self).channel(),
            final(self).waits() == old(self).waits().push(received),
            wait_gave(&old(self).channel(), timeout, received),
    {
        let received = receive_within(self.receiver, timeout);
        proof {
            self.waits@ = self.waits@.push(received);
        }
        received
    }
}

/// The sending end of a channel as one thread uses it: every send made through it is
/// kept, in order, with the message and whether it was queued.
#[verifier::reject_recursive_types(U)]
pub struct Outbox<'a, U> {
    sender: &'a Sender<U>,
    attempts: Ghost<Seq<(U, bool)>>,
}

impl<'a, U> Outbox<'a, U> {
    /// The channel this outbox sends on.
    pub closed spec fn channel(&self) -> Sender<U> {
        *self.sender
    }

    /// Each send made through this outbox, in order: the message, and whether it was queued.
    pub closed spec fn attempts(&self) -> Seq<(U, bool)> {
        self.attempts@
    }

    /// An outbox on `sender` through which nothing was sent yet.
    pub fn new(sender: &'a Sender<U>) -> (outbox: Outbox<'a, U>)
        ensures
            outbox.channel() == *sender,
            outbox.attempts() == Seq::<(U, bool)>::empty(),
    {
        Outbox { sender, attempts: Ghost(Seq::empty()) }
    }

    /// Sends `message`, and keeps the attempt: queued, or refused because no receiver is left.
    pub fn send(&mut self, message: U) -> (res: Result<(), SendError<U>>)
        ensures
            final(self).channel() == old(self).channel(),
            final(self).attempts() == old(self).attempts().push((message, res is Ok)),
            res is Ok ==> sent_ok(&old(self).channel(), message),
            res is Err ==> send_refused(&old(self).channel(), message),
    {
        let ghost m = message;
        let res = send_message(self.sender, message);
        proof {
            self.attempts@ = self.attempts@.push((m, res is Ok));
        }
        res
    }
}

} // verus!
