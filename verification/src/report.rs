//! Emission of lifecycle events, and the producer-side logging handle.
//!
//! `hi` announces a freshly created instance, `resize` a capacity transition
//! (emitting if and only if the capacity really changed), `bye` a destroyed
//! instance. `Log` bundles a sending handle with the id allocator that stamps
//! new instances.

use vstd::prelude::*;

use crate::channel::EventSender;
use crate::event::{ArrayInfo, Id, Message};
use crate::ids::IdAllocator;

verus! {

/// The producer-side handle of the logging service: a sending end of the
/// event channel plus the allocator that stamps new instances with unique
/// ids.
pub struct Log {
    pub sender: EventSender,
    pub ids: IdAllocator,
}

impl Log {
    /// The id allocation is in a sane state.
    pub open spec fn wf(self) -> bool {
        self.ids.wf()
    }

    /// Announces shutdown: offers the quit sentinel, upon which the logger
    /// flushes its output and exits its loop.
    pub fn quit(&mut self)
        ensures
            final(self).sender.sent() == old(self).sender.sent().push(Message::Quit),
            final(self).ids == old(self).ids,
    {
        self.sender.send(Message::Quit);
    }
}

/// Builds the producer-side logging handle around a sending end of the event
/// channel, with a fresh id allocator.
pub fn with_log(sender: EventSender) -> (r: Log)
    ensures
        r.wf(),
        r.sender == sender,
        r.ids.counter == 0,
        r.ids.issued@ == Seq::<Id>::empty(),
{
    Log { sender, ids: IdAllocator::new() }
}

/// Greets a new instance: draws a fresh id and emits the creation event with
/// the instance's initial capacity. Returns the instance's metadata and a
/// sending handle of its own, whose stream so far is exactly that one event.
pub fn hi(log: &mut Log, item_size: usize, array_size: usize, capacity: usize) -> (r: (
    ArrayInfo,
    EventSender,
))
    requires
        old(log).wf(),
        old(log).ids.counter < usize::MAX,
    ensures
        final(log).wf(),
        r.0.id == old(log).ids.counter,
        r.0.item_size == item_size,
        r.0.array_size == array_size,
        final(log).ids.counter == old(log).ids.counter + 1,
        final(log).ids.issued@ == old(log).ids.issued@.push(r.0.id),
        final(log).sender == old(log).sender,
        r.1.sent() == seq![Message::New(r.0, capacity)],
{
    let id = log.ids.next_id();
    let info = ArrayInfo { id, item_size, array_size };
    let mut sink = log.sender.fork();
    sink.send(Message::New(info, capacity));
    (info, sink)
}

/// Reports a capacity transition: emits a capacity-change event if and only
/// if the capacity after the operation differs from the capacity before it.
pub fn resize(s: &mut EventSender, info: ArrayInfo, previous_capacity: usize, new_capacity: usize)
    ensures
        final(s).sent() == old(s).sent() + (if new_capacity != previous_capacity {
            seq![Message::Resize(info, previous_capacity, new_capacity)]
        } else {
            Seq::<Message>::empty()
        }),
{
    if new_capacity != previous_capacity {
        s.send(Message::Resize(info, previous_capacity, new_capacity));
        proof {
            assert(s.sent() =~= old(s).sent() + seq![
                Message::Resize(info, previous_capacity, new_capacity),
            ]);
        }
    } else {
        proof {
            assert(s.sent() =~= old(s).sent() + Seq::<Message>::empty());
        }
    }
}

/// Sees an instance off: emits the destruction event with the capacity the
/// instance held last. Its id is retired with it — the allocator never hands
/// it out again.
pub fn bye(s: &mut EventSender, info: ArrayInfo, capacity: usize)
    ensures
        final(s).sent() == old(s).sent().push(Message::Drop(info, capacity)),
{
    s.send(Message::Drop(info, capacity));
}

} // verus!
