//! The delegated growable array, and the model verification sees of it.
//!
//! The array algorithm itself — element storage, inline-versus-heap
//! switching, the growth strategy — belongs to the delegated library and is
//! not reimplemented here. Verification cannot look inside that library's
//! type, so it is held in an opaque cell, and each delegated call crosses a
//! trusted boundary whose contract states, over the array's elements and its
//! realized capacity, what that library's source shows. Exhaustion of the
//! address space (allocation failure, or an element layout overflowing it) is
//! outside the model, as it is for the standard vector.

use vstd::prelude::*;
use vstd::std_specs::cmp::PartialEqSpec;

verus! {

/// What the delegate's duplicate-removal leaves: an element is dropped
/// exactly when its type's equality relates it to the last element kept
/// before it, so the first of every run of consecutive equal elements stays.
pub open spec fn dedup_spec<T: PartialEq>(s: Seq<T>) -> Seq<T>
    decreases s.len(),
{
    if s.len() <= 1 {
        s
    } else {
        let kept = dedup_spec(s.drop_last());
        if s.last().eq_spec(&kept.last()) {
            kept
        } else {
            kept.push(s.last())
        }
    }
}

/// The inline capacity the delegated array really has: the type-level `N`,
/// except that zero-sized elements take no space, so any number of them fits
/// inline and the delegate reports the largest expressible capacity.
pub open spec fn inline_cap<T, const N: usize>() -> usize {
    if vstd::layout::size_of::<T>() == 0 {
        usize::MAX
    } else {
        N
    }
}

/// The delegated array itself, opaque to verification.
#[verifier::external_body]
#[verifier::reject_recursive_types(T)]
#[verifier::reject_recursive_types(N)]
struct Raw<T, const N: usize> {
    sv: smallvec::SmallVec<[T; N]>,
}

/// The delegated array together with its mathematical model: the elements it
/// holds, in order, and the number of items it can hold without reallocating.
///
/// Two facts hold of every value, restated by each operation: the capacity is
/// at least the real inline capacity (see [`inline_cap`]), and the length
/// never exceeds the capacity (see [`Backing::inv`]).
#[verifier::reject_recursive_types(T)]
#[verifier::reject_recursive_types(N)]
pub struct Backing<T, const N: usize> {
    raw: Raw<T, N>,
    elems: Ghost<Seq<T>>,
    cap: Ghost<usize>,
}

impl<T, const N: usize> Backing<T, N> {
    /// The elements, in order.
    pub closed spec fn elems(self) -> Seq<T> {
        self.elems@
    }

    /// The realized capacity: how many items fit without reallocating.
    pub closed spec fn cap(self) -> usize {
        self.cap@
    }

    /// What holds of every delegated array: it can hold at least its real
    /// inline capacity, and no more elements than its capacity.
    pub open spec fn inv(self) -> bool {
        &&& inline_cap::<T, N>() <= self.cap()
        &&& self.elems().len() <= self.cap()
    }

    /// Relies on smallvec::SmallVec::new: an empty vector in inline storage,
    /// whose capacity is the real inline capacity.
    #[verifier::external_body]
    pub fn new() -> (r: Self)
        ensures
            r.inv(),
            r.elems() == Seq::<T>::empty(),
            (r.cap() == inline_cap::<T, N>()),
    {
        Backing {
            raw: Raw { sv: smallvec::SmallVec::new() },
            elems: Ghost(Seq::empty()),
            cap: Ghost(inline_cap::<T, N>()),
        }
    }

    /// Relies on smallvec::SmallVec::with_capacity: empty, with room for `n`
    /// elements — inline storage if `n` fits there, else exactly `n` slots.
    #[verifier::external_body]
    pub fn with_capacity(n: usize) -> (r: Self)
        ensures
            r.inv(),
            r.elems() == Seq::<T>::empty(),
            r.cap() == (if n <= inline_cap::<T, N>() {
                inline_cap::<T, N>()
            } else {
                n
            }),
    {
        Backing {
            raw: Raw { sv: smallvec::SmallVec::with_capacity(n) },
            elems: Ghost(Seq::empty()),
            cap: Ghost(if n <= inline_cap::<T, N>() { inline_cap::<T, N>() } else { n }),
        }
    }

    /// Relies on smallvec::SmallVec::from_vec: takes the vector's elements —
    /// into inline storage if the vector's buffer is no larger than it, else
    /// by adopting that buffer.
    #[verifier::external_body]
    pub fn from_vec(vec: Vec<T>) -> (r: Self)
        ensures
            r.inv(),
            r.elems() == vec@,
    {
        let g = Ghost(vec@);
        Backing { raw: Raw { sv: smallvec::SmallVec::from_vec(vec) }, elems: g, cap: Ghost(0) }
    }

    /// Relies on smallvec::SmallVec::from_buf: adopts the array whole; all
    /// `N` slots are filled and the capacity is the real inline capacity.
    #[verifier::external_body]
    pub fn from_buf(buf: [T; N]) -> (r: Self)
        ensures
            r.inv(),
            r.elems() == buf@,
            r.elems().len() == N,
            (r.cap() == inline_cap::<T, N>()),
    {
        let g = Ghost(buf@);
        Backing {
            raw: Raw { sv: smallvec::SmallVec::from_buf(buf) },
            elems: g,
            cap: Ghost(inline_cap::<T, N>()),
        }
    }

    /// Relies on smallvec::SmallVec::from_buf_and_len: adopts the array but
    /// keeps only its first `len` elements; panics if `len` exceeds the
    /// array, so that is left out.
    #[verifier::external_body]
    pub fn from_buf_and_len(buf: [T; N], len: usize) -> (r: Self)
        requires
            len <= N,
        ensures
            r.inv(),
            r.elems() == buf@.take(len as int),
            (r.cap() == inline_cap::<T, N>()),
    {
        let g = Ghost(buf@.take(len as int));
        Backing {
            raw: Raw { sv: smallvec::SmallVec::from_buf_and_len(buf, len) },
            elems: g,
            cap: Ghost(inline_cap::<T, N>()),
        }
    }

    /// Relies on smallvec::SmallVec::from_slice (for copyable elements):
    /// copies the slice — inline if it fits there, else onto the heap.
    #[verifier::external_body]
    pub fn from_slice(slice: &[T]) -> (r: Self) where T: Copy
        ensures
            r.inv(),
            r.elems() == slice@,
    {
        let g = Ghost(slice@);
        Backing { raw: Raw { sv: smallvec::SmallVec::from_slice(slice) }, elems: g, cap: Ghost(0) }
    }

    /// Relies on smallvec::SmallVec::from_elem (for copyable elements): `n`
    /// copies of the element. The delegate produces them by cloning, so the
    /// claim that each equals the element needs `Copy`, whose clone is the
    /// value itself.
    #[verifier::external_body]
    pub fn from_elem(elem: T, n: usize) -> (r: Self) where T: Copy
        ensures
            r.inv(),
            r.elems() =~= Seq::new(n as nat, |i: int| elem),
            r.cap() >= n,
    {
        let g = Ghost(Seq::new(n as nat, |i: int| elem));
        Backing { raw: Raw { sv: smallvec::SmallVec::from_elem(elem, n) }, elems: g, cap: Ghost(0) }
    }

    /// Relies on smallvec::SmallVec::clone (for copyable elements): a new
    /// delegated array holding the same elements; its capacity is its own.
    /// The delegate copies by cloning, so elementwise equality needs `Copy`,
    /// whose clone is the value itself.
    #[verifier::external_body]
    pub fn duplicate(&self) -> (r: Self) where T: Copy
        ensures
            r.inv(),
            r.elems() == self.elems(),
    {
        Backing { raw: Raw { sv: self.raw.sv.clone() }, elems: self.elems, cap: Ghost(0) }
    }

    /// Relies on smallvec::SmallVec::as_mut_slice: a mutable view of all
    /// elements; writing through it changes the elements and nothing else.
    #[verifier::external_body]
    pub fn as_mut_slice(&mut self) -> (r: &mut [T])
        ensures
            final(self).inv(),
            (*r)@ == old(self).elems(),
            (*final(r))@.len() == old(self).elems().len(),
            final(self).elems() == (*final(r))@,
            final(self).cap() == old(self).cap(),
    {
        self.raw.sv.as_mut_slice()
    }

    /// Relies on smallvec::SmallVec::len: the number of elements.
    #[verifier::external_body]
    pub fn len(&self) -> (r: usize)
        ensures
            r == self.elems().len(),
    {
        self.raw.sv.len()
    }

    /// Relies on smallvec::SmallVec::capacity: the modelled capacity.
    #[verifier::external_body]
    pub fn capacity(&self) -> (r: usize)
        ensures
            r == self.cap(),
    {
        self.raw.sv.capacity()
    }

    /// Relies on smallvec::SmallVec::as_slice: a view of all elements.
    #[verifier::external_body]
    pub fn as_slice(&self) -> (r: &[T])
        ensures
            r@ == self.elems(),
    {
        self.raw.sv.as_slice()
    }

    /// Relies on smallvec::SmallVec::push: appends the value; the capacity
    /// stays while there is room and grows past the new length otherwise.
    /// Lengths near the address-space limit are left out (growth would panic
    /// computing the new capacity).
    #[verifier::external_body]
    pub fn push(&mut self, value: T)
        requires
            old(self).inv(),
            old(self).elems().len() < usize::MAX / 2,
        ensures
            final(self).inv(),
            final(self).elems() == old(self).elems().push(value),
            final(self).cap() >= old(self).cap(),
            old(self).elems().len() < old(self).cap() ==> final(self).cap() == old(self).cap(),
            old(self).elems().len() == old(self).cap() ==> final(self).cap() > old(self).cap(),
    {
        self.raw.sv.push(value);
    }

    /// Relies on smallvec::SmallVec::pop: removes and returns the last
    /// element, if any; the capacity never changes.
    #[verifier::external_body]
    pub fn pop(&mut self) -> (r: Option<T>)
        requires
            old(self).inv(),
        ensures
            final(self).inv(),
            final(self).cap() == old(self).cap(),
            old(self).elems().len() == 0 ==> r is None && final(self).elems() == old(
                self,
            ).elems(),
            old(self).elems().len() > 0 ==> r == Some(old(self).elems().last())
                && final(self).elems() == old(self).elems().drop_last(),
    {
        self.raw.sv.pop()
    }

    /// Relies on smallvec::SmallVec::insert: places the value at `index`,
    /// shifting what follows; grows exactly as a push would. Panics when
    /// `index` exceeds the length, so that is left out.
    #[verifier::external_body]
    pub fn insert(&mut self, index: usize, value: T)
        requires
            old(self).inv(),
            index <= old(self).elems().len(),
            old(self).elems().len() < usize::MAX / 2,
        ensures
            final(self).inv(),
            final(self).elems() == old(self).elems().insert(index as int, value),
            final(self).cap() >= old(self).cap(),
            old(self).elems().len() < old(self).cap() ==> final(self).cap() == old(self).cap(),
            old(self).elems().len() == old(self).cap() ==> final(self).cap() > old(self).cap(),
    {
        self.raw.sv.insert(index, value);
    }

    /// Relies on smallvec::SmallVec::insert_many: splices the values in at
    /// `index`, shifting what follows. Panics when `index` exceeds the
    /// length, so that is left out.
    #[verifier::external_body]
    pub fn insert_many(&mut self, index: usize, items: Vec<T>)
        requires
            old(self).inv(),
            index <= old(self).elems().len(),
            old(self).elems().len() + items@.len() <= usize::MAX / 2,
        ensures
            final(self).inv(),
            final(self).elems() == old(self).elems().subrange(0, index as int) + items@ + old(
                self,
            ).elems().subrange(index as int, old(self).elems().len() as int),
            final(self).cap() >= old(self).cap(),
    {
        self.raw.sv.insert_many(index, items);
    }

    /// Relies on smallvec::SmallVec::extend: appends all the values.
    #[verifier::external_body]
    pub fn extend(&mut self, items: Vec<T>)
        requires
            old(self).inv(),
            old(self).elems().len() + items@.len() <= usize::MAX / 2,
        ensures
            final(self).inv(),
            final(self).elems() == old(self).elems() + items@,
            final(self).cap() >= old(self).cap(),
    {
        self.raw.sv.extend(items);
    }

    /// Relies on smallvec::SmallVec::extend_from_slice (for copyable
    /// elements): appends a copy of the slice.
    #[verifier::external_body]
    pub fn extend_from_slice(&mut self, slice: &[T]) where T: Copy
        requires
            old(self).inv(),
            old(self).elems().len() + slice@.len() <= usize::MAX / 2,
        ensures
            final(self).inv(),
            final(self).elems() == old(self).elems() + slice@,
            final(self).cap() >= old(self).cap(),
    {
        self.raw.sv.extend_from_slice(slice);
    }

    /// Relies on smallvec::SmallVec::insert_from_slice (for copyable
    /// elements): splices a copy of the slice in at `index`. Panics when
    /// `index` exceeds the length, so that is left out.
    #[verifier::external_body]
    pub fn insert_from_slice(&mut self, index: usize, slice: &[T]) where T: Copy
        requires
            old(self).inv(),
            index <= old(self).elems().len(),
            old(self).elems().len() + slice@.len() <= usize::MAX / 2,
        ensures
            final(self).inv(),
            final(self).elems() == old(self).elems().subrange(0, index as int) + slice@ + old(
                self,
            ).elems().subrange(index as int, old(self).elems().len() as int),
            final(self).cap() >= old(self).cap(),
    {
        self.raw.sv.insert_from_slice(index, slice);
    }

    /// Relies on smallvec::SmallVec::resize (for copyable elements): keeps
    /// the first `new_len` elements, or pads with copies of `value` up to
    /// `new_len`. The delegate pads by cloning, so the claim that the padding
    /// equals `value` needs `Copy`, whose clone is the value itself.
    #[verifier::external_body]
    pub fn resize(&mut self, new_len: usize, value: T) where T: Copy
        requires
            old(self).inv(),
            new_len <= usize::MAX / 2,
        ensures
            final(self).inv(),
            final(self).elems() == (if new_len <= old(self).elems().len() {
                old(self).elems().take(new_len as int)
            } else {
                old(self).elems() + Seq::new((new_len - old(self).elems().len()) as nat, |i: int| value)
            }),
            final(self).cap() >= old(self).cap(),
    {
        self.raw.sv.resize(new_len, value);
    }

    /// Relies on smallvec::SmallVec::grow: re-allocates so the capacity is
    /// `new_cap`, or the real inline capacity if that is larger. Panics when
    /// `new_cap` is below the length, so that is left out.
    #[verifier::external_body]
    pub fn grow(&mut self, new_cap: usize)
        requires
            old(self).inv(),
            new_cap >= old(self).elems().len(),
        ensures
            final(self).inv(),
            final(self).elems() == old(self).elems(),
            final(self).cap() == (if new_cap <= inline_cap::<T, N>() {
                inline_cap::<T, N>()
            } else {
                new_cap
            }),
    {
        self.raw.sv.grow(new_cap);
    }

    /// Relies on smallvec::SmallVec::reserve: ensures room for `additional`
    /// more elements, possibly over-allocating; nothing changes when the room
    /// is already there.
    #[verifier::external_body]
    pub fn reserve(&mut self, additional: usize)
        requires
            old(self).inv(),
            old(self).elems().len() + additional <= usize::MAX / 2,
        ensures
            final(self).inv(),
            final(self).elems() == old(self).elems(),
            final(self).cap() >= old(self).cap(),
            final(self).cap() >= old(self).elems().len() + additional,
            old(self).cap() - old(self).elems().len() >= additional ==> final(self).cap() == old(
                self,
            ).cap(),
    {
        self.raw.sv.reserve(additional);
    }

    /// Relies on smallvec::SmallVec::reserve_exact: ensures room for exactly
    /// `additional` more elements; nothing changes when the room is already
    /// there.
    #[verifier::external_body]
    pub fn reserve_exact(&mut self, additional: usize)
        requires
            old(self).inv(),
            old(self).elems().len() + additional <= usize::MAX / 2,
        ensures
            final(self).inv(),
            final(self).elems() == old(self).elems(),
            final(self).cap() >= old(self).cap(),
            final(self).cap() >= old(self).elems().len() + additional,
            old(self).cap() - old(self).elems().len() >= additional ==> final(self).cap() == old(
                self,
            ).cap(),
    {
        self.raw.sv.reserve_exact(additional);
    }

    /// Relies on smallvec::SmallVec::shrink_to_fit: drops excess capacity,
    /// moving the elements back inline when they fit there.
    #[verifier::external_body]
    pub fn shrink_to_fit(&mut self)
        requires
            old(self).inv(),
        ensures
            final(self).inv(),
            final(self).elems() == old(self).elems(),
            final(self).cap() == (if old(self).elems().len() <= inline_cap::<T, N>() {
                inline_cap::<T, N>()
            } else {
                old(self).elems().len() as usize
            }),
    {
        self.raw.sv.shrink_to_fit();
    }

    /// Relies on smallvec::SmallVec::truncate: keeps the first `len`
    /// elements; never touches the capacity, and does nothing when `len` is
    /// no shorter than the vector.
    #[verifier::external_body]
    pub fn truncate(&mut self, len: usize)
        requires
            old(self).inv(),
        ensures
            final(self).inv(),
            final(self).cap() == old(self).cap(),
            final(self).elems() == (if len < old(self).elems().len() {
                old(self).elems().take(len as int)
            } else {
                old(self).elems()
            }),
    {
        self.raw.sv.truncate(len);
    }

    /// Relies on smallvec::SmallVec::clear: removes every element; the
    /// capacity stays.
    #[verifier::external_body]
    pub fn clear(&mut self)
        requires
            old(self).inv(),
        ensures
            final(self).inv(),
            final(self).cap() == old(self).cap(),
            final(self).elems() == Seq::<T>::empty(),
    {
        self.raw.sv.clear();
    }

    /// Relies on smallvec::SmallVec::remove: takes the element at `index`
    /// out, shifting what follows left; the capacity stays. Panics when
    /// `index` is out of bounds, so that is left out.
    #[verifier::external_body]
    pub fn remove(&mut self, index: usize) -> (r: T)
        requires
            old(self).inv(),
            index < old(self).elems().len(),
        ensures
            final(self).inv(),
            final(self).cap() == old(self).cap(),
            r == old(self).elems()[index as int],
            final(self).elems() == old(self).elems().remove(index as int),
    {
        self.raw.sv.remove(index)
    }

    /// Relies on smallvec::SmallVec::swap_remove: takes the element at
    /// `index` out, moving the last element into its place; the capacity
    /// stays. Panics when `index` is out of bounds, so that is left out.
    #[verifier::external_body]
    pub fn swap_remove(&mut self, index: usize) -> (r: T)
        requires
            old(self).inv(),
            index < old(self).elems().len(),
        ensures
            final(self).inv(),
            final(self).cap() == old(self).cap(),
            r == old(self).elems()[index as int],
            final(self).elems() == old(self).elems().update(
                index as int,
                old(self).elems().last(),
            ).drop_last(),
    {
        self.raw.sv.swap_remove(index)
    }

    /// Relies on smallvec::SmallVec::dedup (for comparable elements whose
    /// `==` agrees with its specification): removes consecutive duplicate
    /// elements, keeping the first of each run, comparing each element
    /// against the last one kept; the capacity never changes.
    #[verifier::external_body]
    pub fn dedup(&mut self) where T: PartialEq
        requires
            old(self).inv(),
            T::obeys_eq_spec(),
        ensures
            final(self).inv(),
            final(self).cap() == old(self).cap(),
            final(self).elems() == dedup_spec(old(self).elems()),
    {
        self.raw.sv.dedup();
    }

    /// Relies on smallvec::SmallVec::drain over the full range: takes every
    /// element out, in order; the capacity stays.
    #[verifier::external_body]
    pub fn drain_all(&mut self) -> (r: Vec<T>)
        requires
            old(self).inv(),
        ensures
            final(self).inv(),
            final(self).cap() == old(self).cap(),
            final(self).elems() == Seq::<T>::empty(),
            r@ == old(self).elems(),
    {
        self.raw.sv.drain(..).collect()
    }

    /// Relies on smallvec::SmallVec::into_vec: gives the elements up as a
    /// plain vector, reusing the heap buffer when there is one.
    #[verifier::external_body]
    pub fn into_vec(self) -> (r: Vec<T>)
        ensures
            r@ == self.elems(),
    {
        self.raw.sv.into_vec()
    }

    /// Relies on smallvec::SmallVec::into_inner: gives the elements up as the
    /// plain array exactly when they sit inline — the capacity is the real
    /// inline capacity — and fill the array, and hands the vector back
    /// unchanged otherwise.
    #[verifier::external_body]
    pub fn into_inner(self) -> (r: Result<[T; N], Self>)
        requires
            self.inv(),
        ensures
            r is Ok <==> (self.cap() == inline_cap::<T, N>() && self.elems().len() == N),
            r matches Ok(a) ==> a@ == self.elems(),
            r matches Err(s) ==> s == self,
    {
        match self.raw.sv.into_inner() {
            Ok(a) => Ok(a),
            Err(sv) => Err(Backing { raw: Raw { sv }, elems: self.elems, cap: self.cap }),
        }
    }
}

} // verus!
