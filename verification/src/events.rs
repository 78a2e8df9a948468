//! Event channel: many producers outside the processing thread push opaque
//! event values, the processing thread drains them all once per block.
//!
//! The queue itself is crossbeam's unbounded channel; the library sees it
//! only through the trusted declarations below.  Nothing is assumed about
//! the order or number of queued events: the drained batch is handed to
//! [`crate::runtime::Runtime::tick`] as a plain vector, and everything the
//! library proves holds for every batch.

use vstd::prelude::*;

verus! {

/// A ready-made event value for callers that do not bring their own event
/// type: one MIDI-like message of three raw bytes.
#[derive(Clone, Copy, PartialEq, Eq, Debug)]
pub enum Event {
    /// A three-byte MIDI-style message.
    Midi([u8; 3]),
}

/// Declares crossbeam's channel sender so it can stand in fields and
/// signatures; the value is opaque to the verifier.
#[verifier::external_type_specification]
#[verifier::external_body]
#[verifier::reject_recursive_types(T)]
pub struct ExSender<T>(crossbeam::channel::Sender<T>);

/// Declares crossbeam's channel receiver so it can stand in fields and
/// signatures; the value is opaque to the verifier.
#[verifier::external_type_specification]
#[verifier::external_body]
#[verifier::reject_recursive_types(T)]
pub struct ExReceiver<T>(crossbeam::channel::Receiver<T>);

/// Relies on crossbeam::channel::unbounded: returns the two endpoints of a
/// fresh unbounded queue.  Nothing is stated about the queue's contents.
#[verifier::external_body]
fn channel_endpoints<E>() -> (crossbeam::channel::Sender<E>, crossbeam::channel::Receiver<E>) {
    crossbeam::channel::unbounded()
}

/// Relies on crossbeam::channel::Sender::send: on an unbounded channel it
/// never blocks, and it fails only when every receiver is gone, handing the
/// unsent event back inside the error.
#[verifier::external_body]
fn channel_send<E>(tx: &crossbeam::channel::Sender<E>, event: E) -> (r: Result<(), E>)
    ensures
        r is Err ==> r->Err_0 == event,
{
    match tx.send(event) {
        Ok(()) => Ok(()),
        Err(crossbeam::channel::SendError(e)) => Err(e),
    }
}

/// Relies on crossbeam::channel::Receiver::try_recv: returns a queued event
/// without blocking, or nothing when the queue is empty or disconnected.
#[verifier::external_body]
fn channel_try_recv<E>(rx: &crossbeam::channel::Receiver<E>) -> Option<E> {
    match rx.try_recv() {
        Ok(e) => Some(e),
        Err(_) => None,
    }
}

/// Relies on crossbeam::channel::Sender::clone: the clone feeds the same
/// queue as the original.
#[verifier::external_body]
fn channel_clone_sender<E>(tx: &crossbeam::channel::Sender<E>) -> crossbeam::channel::Sender<E> {
    tx.clone()
}

/// Relies on crossbeam::channel::Receiver::clone: the clone drains the same
/// queue as the original.
#[verifier::external_body]
fn channel_clone_receiver<E>(
    rx: &crossbeam::channel::Receiver<E>,
) -> crossbeam::channel::Receiver<E> {
    rx.clone()
}

/// The two endpoints of one unbounded event queue.  Producer threads hold
/// clones of the sending side; the processing thread drains the receiving
/// side once per block and feeds the batch to the runtime's tick.
#[verifier::reject_recursive_types(E)]
pub struct EventBus<E> {
    tx: crossbeam::channel::Sender<E>,
    rx: crossbeam::channel::Receiver<E>,
}

impl<E> EventBus<E> {
    /// Opens a fresh, empty event queue.
    pub fn new() -> Self {
        let (tx, rx) = channel_endpoints();
        EventBus { tx, rx }
    }

    /// Pushes one event; on failure (every receiver gone) the event comes
    /// back unchanged inside the error.
    pub fn send(&self, event: E) -> (r: Result<(), E>)
        ensures
            r is Err ==> r->Err_0 == event,
    {
        channel_send(&self.tx, event)
    }

    /// Hands out a sending endpoint for another thread.
    pub fn sender(&self) -> crossbeam::channel::Sender<E> {
        channel_clone_sender(&self.tx)
    }

    /// Drains every event that is queued right now, in arrival order,
    /// without blocking.  The loop carries an iteration budget as its
    /// termination measure; producers cannot queue `usize::MAX` events
    /// between two polls, so the budget never runs out in practice.
    pub fn try_recv_all(&self) -> Vec<E> {
        let mut events: Vec<E> = Vec::new();
        let mut budget: usize = usize::MAX;
        loop
            decreases budget,
        {
            if budget == 0 {
                return events;
            }
            budget = budget - 1;
            match channel_try_recv(&self.rx) {
                Some(event) => {
                    events.push(event);
                },
                None => {
                    return events;
                },
            }
        }
    }
}

impl<E> Clone for EventBus<E> {
    /// Another pair of endpoints of the same queue.
    fn clone(&self) -> Self {
        EventBus { tx: channel_clone_sender(&self.tx), rx: channel_clone_receiver(&self.rx) }
    }
}

} // verus!
