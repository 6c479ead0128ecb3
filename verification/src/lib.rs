//! Instrumentation for a small-size-optimized growable array.
//!
//! Every allocation-relevant event in a container's lifetime — creation,
//! capacity growth or shrink, and destruction — is recorded as a [`Message`]
//! and carried over a bounded channel to a single consumer, which renders
//! each event as one text line for offline analysis of typical container
//! sizes.
//!
//! The pieces: [`ids`] allocates process-unique instance identifiers;
//! [`event`] models the events; [`container`] wraps the delegated array and
//! emits events around its operations; [`channel`] carries them; [`encode`]
//! renders each as its output line; [`history`] states and proves the
//! per-instance lifecycle protocol; [`report`] holds the emission helpers and
//! the producer-side logging handle. The [`backing`] module is the trusted
//! boundary around the delegated array algorithm itself.

pub mod backing;
pub mod channel;
pub mod container;
pub mod encode;
pub mod event;
pub mod history;
pub mod ids;
pub mod report;

pub use channel::channel;
pub use channel::EventReceiver;
pub use channel::EventSender;
pub use container::SmallVec;
pub use encode::handle;
pub use encode::render_line;
pub use encode::write_id;
pub use encode::write_num;
pub use encode::write_opt;
pub use event::ArrayInfo;
pub use event::Id;
pub use event::Message;
pub use ids::IdAllocator;
pub use report::bye;
pub use report::hi;
pub use report::resize;
pub use report::with_log;
pub use report::Log;
