//! The event model: instance identifiers, per-instance metadata, and the
//! messages carried from producers to the logger.

use vstd::prelude::*;

verus! {

/// Identifier correlating all events of one container instance.
///
/// Within one allocator (see [`crate::ids::IdAllocator`]) no two instances,
/// live or already destroyed, ever share an id.
pub type Id = usize;

/// Immutable description of one container instance: its id plus the two
/// type-level properties shared by every instance of the same instantiation —
/// the size of one element in bytes and the fixed inline-storage capacity.
#[derive(Clone, Copy, PartialEq, Eq, Structural, Debug)]
pub struct ArrayInfo {
    pub id: Id,
    pub item_size: usize,
    pub array_size: usize,
}

/// One message on the event channel: the three lifecycle events of a
/// container instance, plus the sentinel that tells the logger to stop.
#[derive(Clone, Copy, PartialEq, Eq, Structural, Debug)]
pub enum Message {
    /// A container was created with the given initial capacity.
    New(ArrayInfo, usize),
    /// A container's capacity changed from the first to the second value.
    Resize(ArrayInfo, usize, usize),
    /// A container was destroyed while holding the given capacity.
    Drop(ArrayInfo, usize),
    /// Tells the logger to flush its output and exit.
    Quit,
}

impl Message {
    /// The instance metadata this message speaks of, if it is an event.
    pub open spec fn info(self) -> ArrayInfo
        recommends !(self is Quit),
    {
        match self {
            Message::New(info, _) => info,
            Message::Resize(info, _, _) => info,
            Message::Drop(info, _) => info,
            Message::Quit => arbitrary(),
        }
    }

    /// The capacity the container holds after this event.
    pub open spec fn cap_after(self) -> usize
        recommends !(self is Quit),
    {
        match self {
            Message::New(_, cap) => cap,
            Message::Resize(_, _, new_cap) => new_cap,
            Message::Drop(_, cap) => cap,
            Message::Quit => arbitrary(),
        }
    }
}

} // verus!
