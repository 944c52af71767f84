use crate::error::MovingArrayError;
use crate::fixed::move_vec_to_array;
use crate::fixed::FixedVec;
use crate::slots::fresh_slots;
use crate::slots::map_vec;
use crate::slots::range_len;
use crate::slots::range_take_rest;
use crate::slots::range_take_result;
use crate::slots::take_range_from_slots;
use vstd::prelude::*;

verus! {

/// A collection of exactly `N` slots, each holding either a present element
/// or an emptiness marker left behind by a take.
///
/// The slot count never changes after construction; a slot only ever goes
/// from present to empty, and only through [`MovableArray::take`] or one of
/// the range takes. Its view is the sequence of the `N` slots.
#[derive(Debug, Clone)]
pub struct MovableArray<T, const N: usize> {
    slots: Vec<Option<T>>,
}

impl<T, const N: usize> View for MovableArray<T, N> {
    type V = Seq<Option<T>>;

    closed spec fn view(&self) -> Seq<Option<T>> {
        self.slots@
    }
}

impl<T, const N: usize> MovableArray<T, N> {
    /// Well-formedness: the container holds exactly `N` slots.
    pub open spec fn wf(&self) -> bool {
        self@.len() == N
    }

    /// Builds the container from a growable sequence, wrapping every element
    /// as present, positionally.
    ///
    /// The source must already have length and allocated capacity exactly
    /// `N`: the elements are moved in through [`move_vec_to_array`], and its
    /// length-and-capacity precondition, failure value included, is this
    /// function's as well.
    pub fn from_vec(vec: Vec<T>) -> (r: Result<Self, MovingArrayError>)
        ensures
            r matches Ok(c) ==> c.wf() && c@ == fresh_slots(vec@) && vec@.len() == N,
            vec@.len() != N ==> r is Err,
            r matches Err(e) ==> e == (MovingArrayError::LengthUnmatch {
                expected: N,
                got: vec.len(),
            }),
    {
        match move_vec_to_array::<T, N>(vec) {
            Ok(arr) => Ok(Self::from_array(arr)),
            Err(e) => Err(e),
        }
    }

    /// Builds the container from a fixed-length sequence, wrapping every
    /// element as present, positionally. Never fails: the source's length is
    /// `N` by construction.
    pub fn from_array(array: FixedVec<T, N>) -> (r: Self)
        ensures
            r.wf(),
            r@ == fresh_slots(array@),
    {
        let elems = array.into_vec();
        let ghost source = elems@;
        let slots = map_vec(
            elems,
            (|t: T| -> (s: Option<T>)
                ensures
                    s == Some(t),
                { Some(t) }),
        );
        proof {
            assert(slots@ =~= fresh_slots(source));
        }
        MovableArray { slots }
    }

    /// Takes the element at `index` out of its slot, leaving the slot empty.
    ///
    /// Returns the slot's previous content: the element, present, on the
    /// first take at this position, and an empty marker on every later one.
    /// No other slot is touched. An index at or beyond `N` is outside this
    /// function's contract, as it is outside the container's bounds.
    pub fn take(&mut self, index: usize) -> (r: Option<T>)
        requires
            old(self).wf(),
            index < N,
        ensures
            final(self).wf(),
            r == old(self)@[index as int],
            final(self)@ == old(self)@.update(index as int, None::<T>),
    {
        let slot = &mut self.slots[index];
        slot.take()
    }

    /// Takes every index of the half-open `range` out of the container, as a
    /// growable sequence of slot contents in ascending index order.
    ///
    /// Unlike single-index [`MovableArray::take`], indices beyond the
    /// container's bounds do not fault: each contributes an empty entry, and
    /// only the in-bounds part of the range is emptied.
    pub fn take_range_vec(&mut self, range: core::ops::Range<usize>) -> (r: Vec<Option<T>>)
        requires
            old(self).wf(),
        ensures
            final(self).wf(),
            r@ == range_take_result(old(self)@, range.start as int, range.end as int),
            final(self)@ == range_take_rest(old(self)@, range.start as int, range.end as int),
    {
        take_range_from_slots(&mut self.slots, range.start, range.end)
    }

    /// Takes every index of the half-open `range` out of the container, as a
    /// fixed-length sequence of `S` slot contents.
    ///
    /// Succeeds exactly when the range covers `S` indices; otherwise it
    /// fails with the range's index count as the observed length. The
    /// in-bounds part of the range is emptied either way, since the
    /// extraction happens before the length check.
    pub fn take_range_array<const S: usize>(&mut self, range: core::ops::Range<usize>) -> (r:
        Result<FixedVec<Option<T>, S>, MovingArrayError>)
        requires
            old(self).wf(),
        ensures
            final(self).wf(),
            final(self)@ == range_take_rest(old(self)@, range.start as int, range.end as int),
            r is Ok <==> range_len(range.start as int, range.end as int) == S,
            r matches Ok(arr) ==> arr@ == range_take_result(
                old(self)@,
                range.start as int,
                range.end as int,
            ),
            r matches Err(e) ==> e == (MovingArrayError::LengthUnmatch {
                expected: S,
                got: range_len(range.start as int, range.end as int) as usize,
            }),
    {
        let taken = self.take_range_vec(range);
        if taken.len() != S {
            let got = taken.len();
            return Err(MovingArrayError::LengthUnmatch { expected: S, got });
        }
        Ok(FixedVec::from_exact(taken))
    }

    /// The slot count, which is always `N`.
    pub fn len(&self) -> (n: usize)
        requires
            self.wf(),
        ensures
            n == N,
            n == self@.len(),
    {
        N
    }

    /// Consumes the container and hands back every slot as-is, empties
    /// included, as a fixed-length sequence.
    pub fn into_inner(self) -> (r: FixedVec<Option<T>, N>)
        requires
            self.wf(),
        ensures
            r@ == self@,
    {
        FixedVec::from_exact(self.slots)
    }

    /// Borrows the slot at `index` without taking its content.
    pub fn get(&self, index: usize) -> (r: &Option<T>)
        requires
            self.wf(),
            index < N,
        ensures
            *r == self@[index as int],
    {
        &self.slots[index]
    }

    /// Applies `f` to every slot positionally, empties included, and builds
    /// a new container of the same slot count from the results.
    ///
    /// `f` receives each slot as it stands, so it must accept an empty slot;
    /// it may answer one with a present element of the new type, which makes
    /// the result's occupancy entirely `f`'s choice.
    pub fn map<R, F: Fn(Option<T>) -> Option<R>>(self, f: F) -> (r: MovableArray<R, N>)
        requires
            self.wf(),
            forall|k: int| 0 <= k < self@.len() ==> call_requires(f, (self@[k],)),
        ensures
            r.wf(),
            r@.len() == self@.len(),
            forall|k: int| 0 <= k < self@.len() ==> call_ensures(f, (self@[k],), #[trigger] r@[k]),
    {
        let slots = map_vec(self.slots, f);
        MovableArray { slots }
    }
}

} // verus!
