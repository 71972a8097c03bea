//! The producer side of the bounded outbound queue. A command offered to a
//! full queue is handed back, never dropped: the producer holds it and
//! offers it again once there is room.

use vstd::prelude::*;
use tokio::sync::mpsc::error::TrySendError;
use tokio::sync::mpsc::Sender;

verus! {

#[verifier::external_type_specification]
#[verifier::external_body]
#[verifier::reject_recursive_types(T)]
pub struct ExSender<T>(tokio::sync::mpsc::Sender<T>);

#[verifier::external_type_specification]
#[verifier::reject_recursive_types(T)]
pub struct ExTrySendError<T>(tokio::sync::mpsc::error::TrySendError<T>);

/// Relies on tokio's `Sender::try_send`: it never waits, and when the queue
/// is full or closed it returns the message it was given.
#[verifier::external_body]
fn try_send(tx: &Sender<String>, command: String) -> (r: Result<(), TrySendError<String>>)
    ensures
        r matches Err(TrySendError::Full(c)) ==> c == command,
        r matches Err(TrySendError::Closed(c)) ==> c == command,
{
    tx.try_send(command)
}

/// What became of a command offered to the queue.
#[derive(Debug, PartialEq, Eq)]
pub enum Offer {
    /// The queue took it.
    Queued,
    /// The queue is at capacity: here is the command back, to offer again
    /// once there is room.
    Full(String),
    /// The consumer is gone: here is the command back.
    Closed(String),
}

/// Offers a command to the queue without waiting; a command that the queue
/// does not take comes back unchanged.
pub fn offer(tx: &Sender<String>, command: String) -> (r: Offer)
    ensures
        r matches Offer::Full(c) ==> c == command,
        r matches Offer::Closed(c) ==> c == command,
{
    match try_send(tx, command) {
        Ok(()) => Offer::Queued,
        Err(TrySendError::Full(c)) => Offer::Full(c),
        Err(TrySendError::Closed(c)) => Offer::Closed(c),
    }
}

/// Where the producer stands after handing on a command.
#[derive(Debug, PartialEq, Eq)]
pub enum Delivery {
    /// The queue took the command.
    Queued,
    /// The queue is full: the producer holds the command and must wait for
    /// room, then call `resume`.
    Waiting,
    /// The consumer is gone: here is the command back.
    Closed(String),
}

/// The single producer of the outbound queue. A command the queue cannot
/// take yet is held, not dropped, and no later command is taken before it
/// has gone in, so commands enter the queue in the order they were
/// submitted.
pub struct Producer {
    tx: Sender<String>,
    held: Option<String>,
}

impl Producer {
    /// The command waiting for room, if any.
    pub closed spec fn held(&self) -> Option<String> {
        self.held
    }

    pub fn new(tx: Sender<String>) -> (r: Self)
        ensures
            r.held() is None,
    {
        Producer { tx, held: None }
    }

    /// Whether a command is waiting for room.
    pub fn is_waiting(&self) -> (r: bool)
        ensures
            r == self.held() is Some,
    {
        self.held.is_some()
    }

    /// Hands on a new command; the producer must not be waiting.
    pub fn submit(&mut self, command: String) -> (r: Delivery)
        requires
            old(self).held() is None,
        ensures
            r is Waiting <==> final(self).held() == Some(command),
            !(r is Waiting) ==> final(self).held() is None,
            r matches Delivery::Closed(c) ==> c == command,
    {
        self.deliver(command)
    }

    /// Offers the held command again, once there is room.
    pub fn resume(&mut self) -> (r: Delivery)
        requires
            old(self).held() is Some,
        ensures
            r is Waiting <==> final(self).held() == old(self).held(),
            !(r is Waiting) ==> final(self).held() is None,
            r matches Delivery::Closed(c) ==> Some(c) == old(self).held(),
    {
        let command = self.held.take().unwrap();
        self.deliver(command)
    }

    fn deliver(&mut self, command: String) -> (r: Delivery)
        requires
            old(self).held is None,
        ensures
            r is Waiting <==> final(self).held == Some(command),
            !(r is Waiting) ==> final(self).held is None,
            r matches Delivery::Closed(c) ==> c == command,
    {
        match offer(&self.tx, command) {
            Offer::Queued => Delivery::Queued,
            Offer::Full(c) => {
                self.held = Some(c);
                Delivery::Waiting
            },
            Offer::Closed(c) => Delivery::Closed(c),
        }
    }

    /// The queue's sending half, to wait on for room.
    pub fn sender(&self) -> &Sender<String> {
        &self.tx
    }
}

} // verus!
