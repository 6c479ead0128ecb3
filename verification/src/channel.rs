//! The bounded event conduit.
//!
//! Arbitrarily many producers offer messages; one consumer drains them. The
//! channel is bounded, so a producer blocks while the queue is full —
//! back-pressure instead of unbounded memory growth or silent loss. Delivery
//! is best-effort once the consumer is gone: instrumentation must never fail
//! the instrumented application.
//!
//! Each sending handle carries, as a ghost value, the stream of messages that
//! were offered through that very handle, in order. The channel keeps that
//! order among messages from one handle; streams of different handles may
//! interleave arbitrarily at the consumer.

use vstd::prelude::*;

use crate::event::Message;

verus! {

#[verifier::external_type_specification]
#[verifier::external_body]
#[verifier::reject_recursive_types(T)]
pub struct ExSender<T>(crossbeam_channel::Sender<T>);

#[verifier::external_type_specification]
#[verifier::external_body]
#[verifier::reject_recursive_types(T)]
pub struct ExReceiver<T>(crossbeam_channel::Receiver<T>);

/// Relies on crossbeam_channel::bounded: a FIFO channel that holds at most
/// `cap` messages at a time.
#[verifier::external_body]
fn raw_bounded(cap: usize) -> (crossbeam_channel::Sender<Message>, crossbeam_channel::Receiver<
    Message,
>) {
    crossbeam_channel::bounded(cap)
}

/// Relies on crossbeam_channel::Sender::send: blocks while the channel is
/// full and a receiver lives; fails only when every receiver is gone, and
/// then hands the message back unchanged.
#[verifier::external_body]
fn raw_send(s: &crossbeam_channel::Sender<Message>, m: Message) -> (r: Result<(), Message>)
    ensures
        r matches Err(e) ==> e == m,
{
    match s.send(m) {
        Ok(()) => Ok(()),
        Err(e) => Err(e.0),
    }
}

/// Relies on crossbeam_channel::Sender::clone: a new handle onto the same
/// channel.
#[verifier::external_body]
fn raw_clone(s: &crossbeam_channel::Sender<Message>) -> crossbeam_channel::Sender<Message> {
    s.clone()
}

/// Relies on crossbeam_channel::Receiver::recv: blocks until a message is
/// available or every sender is gone; `None` reports that the channel is
/// closed and drained.
#[verifier::external_body]
fn raw_recv(r: &crossbeam_channel::Receiver<Message>) -> Option<Message> {
    r.recv().ok()
}

/// A sending handle onto the event channel, carrying the stream of messages
/// offered through this very handle.
pub struct EventSender {
    raw: crossbeam_channel::Sender<Message>,
    sent: Ghost<Seq<Message>>,
}

impl EventSender {
    /// The messages offered through this handle so far, oldest first.
    pub closed spec fn sent(self) -> Seq<Message> {
        self.sent@
    }

    /// Offers one message to the channel, blocking while it is full.
    /// Best-effort: once the consumer is gone the message is dropped
    /// silently, and the caller is never failed.
    pub fn send(&mut self, m: Message)
        ensures
            final(self).sent() == old(self).sent().push(m),
    {
        let _ = raw_send(&self.raw, m);
        proof {
            self.sent@ = self.sent@.push(m);
        }
    }

    /// A fresh handle onto the same channel, with its own, empty stream.
    pub fn fork(&self) -> (r: EventSender)
        ensures
            r.sent() == Seq::<Message>::empty(),
    {
        EventSender { raw: raw_clone(&self.raw), sent: Ghost(Seq::empty()) }
    }
}

/// The single consumer's end of the event channel.
pub struct EventReceiver {
    raw: crossbeam_channel::Receiver<Message>,
}

impl EventReceiver {
    /// Takes the next message, blocking while the channel is empty; `None`
    /// once every sender is gone and the queue is drained.
    pub fn recv(&self) -> Option<Message> {
        raw_recv(&self.raw)
    }
}

/// A bounded FIFO conduit from many producers to one consumer: sending blocks
/// while `cap` messages wait, receiving blocks while none does.
pub fn channel(cap: usize) -> (r: (EventSender, EventReceiver))
    ensures
        r.0.sent() == Seq::<Message>::empty(),
{
    let (s, rx) = raw_bounded(cap);
    (EventSender { raw: s, sent: Ghost(Seq::empty()) }, EventReceiver { raw: rx })
}

} // verus!
