//! The instrumented container.
//!
//! A small-size-optimized growable array whose every capacity-affecting
//! operation is observed: construction emits one creation event, destruction
//! by consumption emits one destruction event, and every mutation emits a
//! capacity-change event if and only if the realized capacity after the
//! delegated operation differs from the capacity immediately before it. The
//! array algorithm itself is delegated (see [`crate::backing`]); this wrapper
//! only measures capacity around each delegated call and reports.

use vstd::prelude::*;
use vstd::std_specs::cmp::PartialEqSpec;

use crate::backing::{dedup_spec, inline_cap, Backing};
use crate::channel::EventSender;
use crate::event::{ArrayInfo, Id, Message};
use crate::history::{closed_wf, lemma_live_extend, live_wf};
use crate::report::{bye, hi, resize, Log};

verus! {

/// The instrumented small-size-optimized growable array: one delegated array,
/// one immutable identity, and the sending handle its events travel through.
///
/// Destruction is observed through the consuming conversions ([`Self::into_vec`],
/// [`Self::into_inner`]), which emit the destruction event and retire the id.
/// A value that merely goes out of scope emits nothing: hooking scope exit
/// would take a destructor, which sits outside what is verified here, so a
/// stream is closed only by explicit consumption.
#[verifier::reject_recursive_types(T)]
#[verifier::reject_recursive_types(N)]
pub struct SmallVec<T, const N: usize> {
    inner: Backing<T, N>,
    info: ArrayInfo,
    sink: EventSender,
}

impl<T, const N: usize> View for SmallVec<T, N> {
    type V = Seq<T>;

    closed spec fn view(&self) -> Seq<T> {
        self.inner.elems()
    }
}

impl<T, const N: usize> SmallVec<T, N> {
    /// The realized capacity.
    pub closed spec fn cap(self) -> usize {
        self.inner.cap()
    }

    /// The instance's immutable metadata: id, element size, inline capacity.
    pub closed spec fn info(self) -> ArrayInfo {
        self.info
    }

    /// The instance's unique id.
    pub open spec fn id(self) -> Id {
        self.info().id
    }

    /// Every event this instance has emitted so far, in emission order.
    pub closed spec fn history(self) -> Seq<Message> {
        self.sink.sent()
    }

    /// A valid instance: the delegated array is consistent, the metadata
    /// carries this instantiation's element size and inline capacity, and the
    /// events emitted so far form a live stream — one creation event, then
    /// exactly the genuine capacity transitions, ending at the current
    /// capacity.
    pub closed spec fn wf(self) -> bool {
        &&& self.inner.inv()
        &&& self.info.array_size == N
        &&& self.info.item_size as nat == vstd::layout::size_of::<T>()
        &&& live_wf(self.sink.sent(), self.info, self.inner.cap())
    }

    /// What a valid instance's parts satisfy, spelled out for callers.
    pub proof fn lemma_wf(self)
        requires
            self.wf(),
        ensures
            live_wf(self.history(), self.info(), self.cap()),
            self@.len() <= self.cap(),
            N <= self.cap(),
            self.info().array_size == N,
            self.info().item_size as nat == vstd::layout::size_of::<T>(),
    {
    }

    /// The complete event stream of this instance once a consuming operation
    /// destroys it: everything emitted so far, then the destruction event.
    pub open spec fn closing(self) -> Seq<Message> {
        self.history().push(Message::Drop(self.info(), self.cap()))
    }

    /// Destruction closes the stream: a valid instance's [`Self::closing`]
    /// stream is a complete lifecycle — creation first, destruction last,
    /// only genuine capacity changes strictly between.
    pub proof fn lemma_closing(self)
        requires
            self.wf(),
        ensures
            closed_wf(self.closing(), self.info(), self.cap()),
    {
        assert(self.closing().drop_last() =~= self.history());
    }

    /// How one constructed instance relates to the logging handle it was
    /// drawn from: it is valid, it took the handle's next id — so its id
    /// differs from that of every instance before it — and it has emitted
    /// exactly its creation event.
    pub open spec fn created_from(self, pre: Log, post: Log) -> bool {
        &&& self.wf()
        &&& post.wf()
        &&& self.id() == pre.ids.counter
        &&& post.ids.counter == pre.ids.counter + 1
        &&& post.ids.issued@ == pre.ids.issued@.push(self.id())
        &&& post.sender == pre.sender
        &&& self.info().array_size == N
        &&& self.history() == seq![Message::New(self.info(), self.cap())]
    }

    /// How one mutation relates the instance after it to the instance before
    /// it: identity kept, and a capacity-change event emitted if and only if
    /// the capacity changed — nothing emitted for a no-op.
    pub open spec fn resize_step(pre: Self, post: Self) -> bool {
        &&& post.wf()
        &&& post.info() == pre.info()
        &&& post.history() == pre.history() + (if post.cap() != pre.cap() {
            seq![Message::Resize(pre.info(), pre.cap(), post.cap())]
        } else {
            Seq::<Message>::empty()
        })
    }

    /// The fixed inline capacity of this instantiation.
    pub fn inline_size(&self) -> (r: usize)
        ensures
            r == N,
    {
        N
    }

    /// The number of elements.
    pub fn len(&self) -> (r: usize)
        ensures
            r == self@.len(),
    {
        self.inner.len()
    }

    /// Whether the container holds no element.
    pub fn is_empty(&self) -> (r: bool)
        ensures
            r == (self@.len() == 0),
    {
        self.len() == 0
    }

    /// The number of items the container can hold without reallocating.
    pub fn capacity(&self) -> (r: usize)
        ensures
            r == self.cap(),
    {
        self.inner.capacity()
    }

    /// Whether the elements have spilled into a heap buffer: the case
    /// exactly when the capacity exceeds the real inline capacity (for
    /// zero-sized elements everything fits inline, so nothing ever spills).
    pub fn spilled(&self) -> (r: bool)
        ensures
            (r == (self.cap() > inline_cap::<T, N>())),
    {
        let inline: usize = if core::mem::size_of::<T>() == 0 {
            usize::MAX
        } else {
            N
        };
        self.inner.capacity() > inline
    }

    /// A view of all elements.
    pub fn as_slice(&self) -> (r: &[T])
        ensures
            r@ == self@,
    {
        self.inner.as_slice()
    }

    /// An empty instrumented container in inline storage; emits its creation
    /// event with the inline capacity.
    pub fn new(log: &mut Log) -> (r: SmallVec<T, N>)
        requires
            old(log).wf(),
            old(log).ids.counter < usize::MAX,
        ensures
            r.created_from(*old(log), *final(log)),
            r@ == Seq::<T>::empty(),
            (r.cap() == inline_cap::<T, N>()),
    {
        let inner = Backing::<T, N>::new();
        let capacity = inner.capacity();
        let (info, sink) = hi(log, core::mem::size_of::<T>(), N, capacity);
        SmallVec { inner, info, sink }
    }

    /// An empty instrumented container with room for at least `cap` elements;
    /// emits its creation event with that initial capacity.
    pub fn with_capacity(cap: usize, log: &mut Log) -> (r: SmallVec<T, N>)
        requires
            old(log).wf(),
            old(log).ids.counter < usize::MAX,
        ensures
            r.created_from(*old(log), *final(log)),
            r@ == Seq::<T>::empty(),
            r.cap() == (if cap <= inline_cap::<T, N>() {
                inline_cap::<T, N>()
            } else {
                cap
            }),
    {
        let inner = Backing::<T, N>::with_capacity(cap);
        let capacity = inner.capacity();
        let (info, sink) = hi(log, core::mem::size_of::<T>(), N, capacity);
        SmallVec { inner, info, sink }
    }

    /// An instrumented container taking over a plain vector's elements;
    /// emits its creation event with the resulting capacity.
    pub fn from_vec(vec: Vec<T>, log: &mut Log) -> (r: SmallVec<T, N>)
        requires
            old(log).wf(),
            old(log).ids.counter < usize::MAX,
        ensures
            r.created_from(*old(log), *final(log)),
            r@ == vec@,
    {
        let inner = Backing::<T, N>::from_vec(vec);
        let capacity = inner.capacity();
        let (info, sink) = hi(log, core::mem::size_of::<T>(), N, capacity);
        SmallVec { inner, info, sink }
    }

    /// An instrumented container adopting a full inline buffer; emits its
    /// creation event with the inline capacity.
    pub fn from_buf(buf: [T; N], log: &mut Log) -> (r: SmallVec<T, N>)
        requires
            old(log).wf(),
            old(log).ids.counter < usize::MAX,
        ensures
            r.created_from(*old(log), *final(log)),
            r@ == buf@,
            (r.cap() == inline_cap::<T, N>()),
    {
        let inner = Backing::<T, N>::from_buf(buf);
        let capacity = inner.capacity();
        let (info, sink) = hi(log, core::mem::size_of::<T>(), N, capacity);
        SmallVec { inner, info, sink }
    }

    /// An instrumented container adopting the first `len` elements of an
    /// inline buffer; emits its creation event with the inline capacity.
    pub fn from_buf_and_len(buf: [T; N], len: usize, log: &mut Log) -> (r: SmallVec<T, N>)
        requires
            len <= N,
            old(log).wf(),
            old(log).ids.counter < usize::MAX,
        ensures
            r.created_from(*old(log), *final(log)),
            r@ == buf@.take(len as int),
            (r.cap() == inline_cap::<T, N>()),
    {
        let inner = Backing::<T, N>::from_buf_and_len(buf, len);
        let capacity = inner.capacity();
        let (info, sink) = hi(log, core::mem::size_of::<T>(), N, capacity);
        SmallVec { inner, info, sink }
    }

    /// An instrumented container holding a copy of the slice; emits its
    /// creation event with the resulting capacity.
    pub fn from_slice(slice: &[T], log: &mut Log) -> (r: SmallVec<T, N>) where T: Copy
        requires
            old(log).wf(),
            old(log).ids.counter < usize::MAX,
        ensures
            r.created_from(*old(log), *final(log)),
            r@ == slice@,
    {
        let inner = Backing::<T, N>::from_slice(slice);
        let capacity = inner.capacity();
        let (info, sink) = hi(log, core::mem::size_of::<T>(), N, capacity);
        SmallVec { inner, info, sink }
    }

    /// An instrumented container holding `n` copies of the element (copyable,
    /// so each copy is the element itself); emits its creation event with the
    /// resulting capacity.
    pub fn from_elem(elem: T, n: usize, log: &mut Log) -> (r: SmallVec<T, N>) where T: Copy
        requires
            old(log).wf(),
            old(log).ids.counter < usize::MAX,
        ensures
            r.created_from(*old(log), *final(log)),
            r@ == Seq::new(n as nat, |i: int| elem),
            r.cap() >= n,
    {
        let inner = Backing::<T, N>::from_elem(elem, n);
        let capacity = inner.capacity();
        let (info, sink) = hi(log, core::mem::size_of::<T>(), N, capacity);
        SmallVec { inner, info, sink }
    }

    /// A new instrumented instance holding a copy of this one's elements.
    /// The copy is an instance of its own: it takes a fresh id and emits its
    /// own creation event, carrying whatever capacity its delegated array
    /// chose; this instance emits nothing.
    pub fn duplicate(&self, log: &mut Log) -> (r: SmallVec<T, N>) where T: Copy
        requires
            self.wf(),
            old(log).wf(),
            old(log).ids.counter < usize::MAX,
        ensures
            r.created_from(*old(log), *final(log)),
            r@ == self@,
    {
        let inner = self.inner.duplicate();
        let capacity = inner.capacity();
        let (info, sink) = hi(log, core::mem::size_of::<T>(), N, capacity);
        SmallVec { inner, info, sink }
    }

    /// A mutable view of all elements. Writing through it changes elements
    /// only — never the length, the capacity or the identity — so nothing is
    /// emitted.
    pub fn as_mut_slice(&mut self) -> (r: &mut [T])
        requires
            old(self).wf(),
        ensures
            (*r)@ == old(self)@,
            final(self)@ == (*final(r))@,
            final(self).wf(),
            final(self).info() == old(self).info(),
            final(self).cap() == old(self).cap(),
            final(self).history() == old(self).history(),
    {
        self.inner.as_mut_slice()
    }

    /// Appends one element; emits a capacity-change event exactly when the
    /// delegate had to grow.
    pub fn push(&mut self, value: T)
        requires
            old(self).wf(),
            old(self)@.len() < usize::MAX / 2,
        ensures
            Self::resize_step(*old(self), *final(self)),
            final(self)@ == old(self)@.push(value),
            final(self).cap() >= old(self).cap(),
            old(self)@.len() < old(self).cap() ==> final(self).cap() == old(self).cap(),
            old(self)@.len() == old(self).cap() ==> final(self).cap() > old(self).cap(),
    {
        let previous_cap = self.inner.capacity();
        self.inner.push(value);
        let new_cap = self.inner.capacity();
        resize(&mut self.sink, self.info, previous_cap, new_cap);
        proof {
            self.lemma_step(*old(self), previous_cap, new_cap);
        }
    }

    /// Places one element at `index`, shifting what follows right; emits a
    /// capacity-change event exactly when the delegate had to grow.
    pub fn insert(&mut self, index: usize, value: T)
        requires
            old(self).wf(),
            index <= old(self)@.len(),
            old(self)@.len() < usize::MAX / 2,
        ensures
            Self::resize_step(*old(self), *final(self)),
            final(self)@ == old(self)@.insert(index as int, value),
            final(self).cap() >= old(self).cap(),
            old(self)@.len() < old(self).cap() ==> final(self).cap() == old(self).cap(),
            old(self)@.len() == old(self).cap() ==> final(self).cap() > old(self).cap(),
    {
        let previous_cap = self.inner.capacity();
        self.inner.insert(index, value);
        let new_cap = self.inner.capacity();
        resize(&mut self.sink, self.info, previous_cap, new_cap);
        proof {
            self.lemma_step(*old(self), previous_cap, new_cap);
        }
    }

    /// Splices the given elements in at `index`; emits a capacity-change
    /// event exactly when the delegate had to grow.
    pub fn insert_many(&mut self, index: usize, items: Vec<T>)
        requires
            old(self).wf(),
            index <= old(self)@.len(),
            old(self)@.len() + items@.len() <= usize::MAX / 2,
        ensures
            Self::resize_step(*old(self), *final(self)),
            final(self)@ == old(self)@.subrange(0, index as int) + items@ + old(self)@.subrange(
                index as int,
                old(self)@.len() as int,
            ),
    {
        let previous_cap = self.inner.capacity();
        self.inner.insert_many(index, items);
        let new_cap = self.inner.capacity();
        resize(&mut self.sink, self.info, previous_cap, new_cap);
        proof {
            self.lemma_step(*old(self), previous_cap, new_cap);
        }
    }

    /// Appends all the given elements; emits a capacity-change event exactly
    /// when the delegate had to grow.
    pub fn extend(&mut self, items: Vec<T>)
        requires
            old(self).wf(),
            old(self)@.len() + items@.len() <= usize::MAX / 2,
        ensures
            Self::resize_step(*old(self), *final(self)),
            final(self)@ == old(self)@ + items@,
    {
        let previous_cap = self.inner.capacity();
        self.inner.extend(items);
        let new_cap = self.inner.capacity();
        resize(&mut self.sink, self.info, previous_cap, new_cap);
        proof {
            self.lemma_step(*old(self), previous_cap, new_cap);
        }
    }

    /// Appends a copy of the slice; emits a capacity-change event exactly
    /// when the delegate had to grow.
    pub fn extend_from_slice(&mut self, slice: &[T]) where T: Copy
        requires
            old(self).wf(),
            old(self)@.len() + slice@.len() <= usize::MAX / 2,
        ensures
            Self::resize_step(*old(self), *final(self)),
            final(self)@ == old(self)@ + slice@,
    {
        let previous_cap = self.inner.capacity();
        self.inner.extend_from_slice(slice);
        let new_cap = self.inner.capacity();
        resize(&mut self.sink, self.info, previous_cap, new_cap);
        proof {
            self.lemma_step(*old(self), previous_cap, new_cap);
        }
    }

    /// Splices a copy of the slice in at `index`; emits a capacity-change
    /// event exactly when the delegate had to grow.
    pub fn insert_from_slice(&mut self, index: usize, slice: &[T]) where T: Copy
        requires
            old(self).wf(),
            index <= old(self)@.len(),
            old(self)@.len() + slice@.len() <= usize::MAX / 2,
        ensures
            Self::resize_step(*old(self), *final(self)),
            final(self)@ == old(self)@.subrange(0, index as int) + slice@ + old(self)@.subrange(
                index as int,
                old(self)@.len() as int,
            ),
    {
        let previous_cap = self.inner.capacity();
        self.inner.insert_from_slice(index, slice);
        let new_cap = self.inner.capacity();
        resize(&mut self.sink, self.info, previous_cap, new_cap);
        proof {
            self.lemma_step(*old(self), previous_cap, new_cap);
        }
    }

    /// Truncates to `new_len` elements, or pads with copies of `value`
    /// (copyable, so each copy is the value itself) up to `new_len`; emits a
    /// capacity-change event exactly when the delegate had to grow.
    pub fn resize(&mut self, new_len: usize, value: T) where T: Copy
        requires
            old(self).wf(),
            new_len <= usize::MAX / 2,
        ensures
            Self::resize_step(*old(self), *final(self)),
            final(self)@ == (if new_len <= old(self)@.len() {
                old(self)@.take(new_len as int)
            } else {
                old(self)@ + Seq::new((new_len - old(self)@.len()) as nat, |i: int| value)
            }),
    {
        let previous_cap = self.inner.capacity();
        self.inner.resize(new_len, value);
        let new_cap = self.inner.capacity();
        resize(&mut self.sink, self.info, previous_cap, new_cap);
        proof {
            self.lemma_step(*old(self), previous_cap, new_cap);
        }
    }

    /// Re-allocates to capacity `new_cap` (at least the inline capacity);
    /// emits a capacity-change event exactly when that differs from the
    /// capacity before.
    pub fn grow(&mut self, new_cap: usize)
        requires
            old(self).wf(),
            new_cap >= old(self)@.len(),
        ensures
            Self::resize_step(*old(self), *final(self)),
            final(self)@ == old(self)@,
            final(self).cap() == (if new_cap <= inline_cap::<T, N>() {
                inline_cap::<T, N>()
            } else {
                new_cap
            }),
    {
        let previous_cap = self.inner.capacity();
        self.inner.grow(new_cap);
        let after_cap = self.inner.capacity();
        resize(&mut self.sink, self.info, previous_cap, after_cap);
        proof {
            self.lemma_step(*old(self), previous_cap, after_cap);
        }
    }

    /// Makes room for `additional` more elements, possibly over-allocating;
    /// emits a capacity-change event exactly when the delegate re-allocated,
    /// and emits nothing when the room was already there.
    pub fn reserve(&mut self, additional: usize)
        requires
            old(self).wf(),
            old(self)@.len() + additional <= usize::MAX / 2,
        ensures
            Self::resize_step(*old(self), *final(self)),
            final(self)@ == old(self)@,
            final(self).cap() >= old(self)@.len() + additional,
            old(self).cap() - old(self)@.len() >= additional ==> final(self).cap() == old(
                self,
            ).cap(),
    {
        let previous_cap = self.inner.capacity();
        self.inner.reserve(additional);
        let new_cap = self.inner.capacity();
        resize(&mut self.sink, self.info, previous_cap, new_cap);
        proof {
            self.lemma_step(*old(self), previous_cap, new_cap);
        }
    }

    /// Makes room for exactly `additional` more elements; emits a
    /// capacity-change event exactly when the delegate re-allocated, and
    /// emits nothing when the room was already there.
    pub fn reserve_exact(&mut self, additional: usize)
        requires
            old(self).wf(),
            old(self)@.len() + additional <= usize::MAX / 2,
        ensures
            Self::resize_step(*old(self), *final(self)),
            final(self)@ == old(self)@,
            final(self).cap() >= old(self)@.len() + additional,
            old(self).cap() - old(self)@.len() >= additional ==> final(self).cap() == old(
                self,
            ).cap(),
    {
        let previous_cap = self.inner.capacity();
        self.inner.reserve_exact(additional);
        let new_cap = self.inner.capacity();
        resize(&mut self.sink, self.info, previous_cap, new_cap);
        proof {
            self.lemma_step(*old(self), previous_cap, new_cap);
        }
    }

    /// Drops excess capacity, down to the length or the real inline capacity,
    /// whichever is larger; emits a capacity-change event exactly when the
    /// capacity moved.
    pub fn shrink_to_fit(&mut self)
        requires
            old(self).wf(),
        ensures
            Self::resize_step(*old(self), *final(self)),
            final(self)@ == old(self)@,
            final(self).cap() == (if old(self)@.len() <= inline_cap::<T, N>() {
                inline_cap::<T, N>()
            } else {
                old(self)@.len() as usize
            }),
    {
        let previous_cap = self.inner.capacity();
        self.inner.shrink_to_fit();
        let new_cap = self.inner.capacity();
        resize(&mut self.sink, self.info, previous_cap, new_cap);
        proof {
            self.lemma_step(*old(self), previous_cap, new_cap);
        }
    }

    /// How a mutation that cannot move the capacity relates the instance
    /// after it to the instance before it: identity kept, capacity kept, and
    /// nothing emitted.
    pub open spec fn quiet_step(pre: Self, post: Self) -> bool {
        &&& post.wf()
        &&& post.info() == pre.info()
        &&& post.cap() == pre.cap()
        &&& post.history() == pre.history()
    }

    /// Removes and returns the last element, if any; the capacity never
    /// moves, so nothing is emitted.
    pub fn pop(&mut self) -> (r: Option<T>)
        requires
            old(self).wf(),
        ensures
            Self::quiet_step(*old(self), *final(self)),
            old(self)@.len() == 0 ==> r is None && final(self)@ == old(self)@,
            old(self)@.len() > 0 ==> r == Some(old(self)@.last()) && final(self)@ == old(
                self,
            )@.drop_last(),
    {
        self.inner.pop()
    }

    /// Keeps the first `len` elements; the capacity never moves, so nothing
    /// is emitted.
    pub fn truncate(&mut self, len: usize)
        requires
            old(self).wf(),
        ensures
            Self::quiet_step(*old(self), *final(self)),
            final(self)@ == (if len < old(self)@.len() {
                old(self)@.take(len as int)
            } else {
                old(self)@
            }),
    {
        self.inner.truncate(len);
    }

    /// Removes every element; the capacity never moves, so nothing is
    /// emitted.
    pub fn clear(&mut self)
        requires
            old(self).wf(),
        ensures
            Self::quiet_step(*old(self), *final(self)),
            final(self)@ == Seq::<T>::empty(),
    {
        self.inner.clear();
    }

    /// Removes and returns the element at `index`, shifting what follows
    /// left; the capacity never moves, so nothing is emitted.
    pub fn remove(&mut self, index: usize) -> (r: T)
        requires
            old(self).wf(),
            index < old(self)@.len(),
        ensures
            Self::quiet_step(*old(self), *final(self)),
            r == old(self)@[index as int],
            final(self)@ == old(self)@.remove(index as int),
    {
        self.inner.remove(index)
    }

    /// Removes and returns the element at `index`, moving the last element
    /// into its place; the capacity never moves, so nothing is emitted.
    pub fn swap_remove(&mut self, index: usize) -> (r: T)
        requires
            old(self).wf(),
            index < old(self)@.len(),
        ensures
            Self::quiet_step(*old(self), *final(self)),
            r == old(self)@[index as int],
            final(self)@ == old(self)@.update(index as int, old(self)@.last()).drop_last(),
    {
        self.inner.swap_remove(index)
    }

    /// Removes consecutive duplicate elements, keeping the first of each run
    /// (each element is compared against the last one kept); the capacity
    /// never moves, so nothing is emitted. Asks that the element type's `==`
    /// agree with its specification, since what counts as a duplicate is
    /// decided by that operator.
    pub fn dedup(&mut self) where T: PartialEq
        requires
            old(self).wf(),
            T::obeys_eq_spec(),
        ensures
            Self::quiet_step(*old(self), *final(self)),
            final(self)@ == dedup_spec(old(self)@),
    {
        self.inner.dedup();
    }

    /// Takes every element out, in order, leaving the container empty; the
    /// capacity never moves, so nothing is emitted and the instance lives on.
    pub fn drain(&mut self) -> (r: Vec<T>)
        requires
            old(self).wf(),
        ensures
            Self::quiet_step(*old(self), *final(self)),
            r@ == old(self)@,
            final(self)@ == Seq::<T>::empty(),
    {
        self.inner.drain_all()
    }

    /// Consumes the container into a plain vector holding the same elements.
    /// The instrumentation identity is retired: the destruction event is
    /// emitted with the final capacity, and nothing will ever be emitted for
    /// this id again — the plain vector is not instrumented. The spent
    /// sending handle comes back beside the elements so that the contract can
    /// say so: its stream is exactly this instance's closed stream. Callers
    /// simply drop it.
    pub fn into_vec(self) -> (r: (Vec<T>, EventSender))
        requires
            self.wf(),
        ensures
            r.0@ == self@,
            r.1.sent() == self.closing(),
    {
        let SmallVec { inner, info, mut sink } = self;
        let capacity = inner.capacity();
        bye(&mut sink, info, capacity);
        (inner.into_vec(), sink)
    }

    /// Consumes the container into its plain inline buffer when the elements
    /// sit inline — the capacity is the real inline capacity — and fill the
    /// buffer, retiring the instrumentation identity with a destruction
    /// event; the spent sending handle beside the buffer shows it, its stream
    /// being exactly this instance's closed stream. Otherwise hands the
    /// container back unchanged, with nothing emitted.
    pub fn into_inner(self) -> (r: Result<([T; N], EventSender), SmallVec<T, N>>)
        requires
            self.wf(),
        ensures
            r is Ok <==> (self.cap() == inline_cap::<T, N>() && self@.len() == N),
            r matches Ok(p) ==> p.0@ == self@ && p.1.sent() == self.closing(),
            r matches Err(s) ==> s == self,
    {
        let SmallVec { inner, info, mut sink } = self;
        let capacity = inner.capacity();
        match inner.into_inner() {
            Ok(a) => {
                bye(&mut sink, info, capacity);
                Ok((a, sink))
            },
            Err(b) => Err(SmallVec { inner: b, info, sink }),
        }
    }

    /// The shared tail of every instrumented mutation: when the capacity
    /// moved, the appended event keeps the stream live; when it did not, the
    /// stream is unchanged.
    proof fn lemma_step(self, pre: Self, previous_cap: usize, new_cap: usize)
        requires
            pre.wf(),
            previous_cap == pre.cap(),
            new_cap == self.cap(),
            self.info == pre.info,
            self.inner.inv(),
            self.sink.sent() == pre.sink.sent() + (if new_cap != previous_cap {
                seq![Message::Resize(pre.info, previous_cap, new_cap)]
            } else {
                Seq::<Message>::empty()
            }),
        ensures
            Self::resize_step(pre, self),
    {
        if new_cap != previous_cap {
            lemma_live_extend(pre.sink.sent(), pre.info, previous_cap, new_cap);
            assert(self.sink.sent() =~= pre.sink.sent().push(
                Message::Resize(pre.info, previous_cap, new_cap),
            ));
        } else {
            assert(self.sink.sent() =~= pre.sink.sent());
        }
    }
}

} // verus!
