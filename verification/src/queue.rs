//! The command dispatch queue: a bounded FIFO with one producer (key
//! interpretation) and one consumer (the execution loop).
//!
//! The queue itself is an outside crate's channel; both ends live in one
//! opaque value here, and its contents and bound are named so the
//! dispatcher's ordering can be reasoned about.

use vstd::prelude::*;

use crate::commands::Commands;
use crate::commands::QueueFullError;

verus! {

/// A bounded FIFO queue of commands awaiting execution.
#[verifier::external_body]
pub struct CommandQueue {
    sender: tokio::sync::mpsc::Sender<Commands>,
    receiver: tokio::sync::mpsc::Receiver<Commands>,
}

/// The commands waiting in the queue, oldest first.
pub uninterp spec fn queue_view(q: CommandQueue) -> Seq<Commands>;

/// The bound the queue was created with.
pub uninterp spec fn queue_bound(q: CommandQueue) -> nat;

impl CommandQueue {
    /// Relies on tokio's `mpsc::channel`: a bounded channel holding up to
    /// `capacity` messages; it panics on a capacity of zero or above its
    /// permit limit of `usize::MAX >> 3`, which the precondition's safe
    /// bound rules out.
    #[verifier::external_body]
    pub fn new(capacity: usize) -> (q: CommandQueue)
        requires
            1 <= capacity <= 0x1000_0000,
        ensures
            queue_view(q) == Seq::<Commands>::empty(),
            queue_bound(q) == capacity,
    {
        let (sender, receiver) = tokio::sync::mpsc::channel(capacity);
        CommandQueue { sender, receiver }
    }

    /// Relies on tokio's `Sender::try_send`: appends the message when the
    /// channel has room and fails without sending when it is full. Both
    /// channel ends live in this value, so the closed case cannot arise.
    #[verifier::external_body]
    pub fn enqueue(&mut self, command: Commands) -> (r: Result<(), QueueFullError>)
        ensures
            queue_bound(*final(self)) == queue_bound(*old(self)),
            queue_view(*old(self)).len() < queue_bound(*old(self)) ==> r is Ok && queue_view(
                *final(self),
            ) == queue_view(*old(self)).push(command),
            queue_view(*old(self)).len() >= queue_bound(*old(self)) ==> r is Err && queue_view(
                *final(self),
            ) == queue_view(*old(self)),
    {
        match self.sender.try_send(command) {
            Ok(()) => Ok(()),
            Err(_) => Err(QueueFullError),
        }
    }

    /// Relies on tokio's `Receiver::try_recv`: takes the oldest message, or
    /// reports an empty channel without blocking; messages come out in the
    /// order they went in. Both channel ends live in this value, so the
    /// disconnected case cannot arise.
    #[verifier::external_body]
    pub fn dequeue(&mut self) -> (r: Option<Commands>)
        ensures
            queue_bound(*final(self)) == queue_bound(*old(self)),
            queue_view(*old(self)).len() == 0 ==> r is None && queue_view(*final(self))
                == queue_view(*old(self)),
            queue_view(*old(self)).len() > 0 ==> r == Some(queue_view(*old(self))[0]) && queue_view(
                *final(self),
            ) == queue_view(*old(self)).drop_first(),
    {
        match self.receiver.try_recv() {
            Ok(command) => Some(command),
            Err(_) => None,
        }
    }
}

} // verus!
