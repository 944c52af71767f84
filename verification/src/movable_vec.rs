use crate::error::MovingArrayError;
use crate::fixed::FixedVec;
use crate::slots::fresh_slots;
use crate::slots::map_vec;
use crate::slots::range_len;
use crate::slots::range_take_rest;
use crate::slots::range_take_result;
use crate::slots::take_range_from_slots;
use vstd::prelude::*;

verus! {

/// A collection of slots without a compile-time count: the unconstrained
/// analogue of [`crate::MovableArray`].
///
/// The slot count is fixed once the container is built; a slot only ever
/// goes from present to empty, through [`MovableVec::take`] or one of the
/// range takes. Its view is the sequence of slots.
pub struct MovableVec<T> {
    slots: Vec<Option<T>>,
}

impl<T> View for MovableVec<T> {
    type V = Seq<Option<T>>;

    closed spec fn view(&self) -> Seq<Option<T>> {
        self.slots@
    }
}

impl<T> MovableVec<T> {
    /// Builds the container from a growable sequence, wrapping every element
    /// as present, positionally. Never fails: with no fixed external size to
    /// commit to, any length and capacity are acceptable.
    pub fn from_vec(v: Vec<T>) -> (r: Self)
        ensures
            r@ == fresh_slots(v@),
    {
        let ghost source = v@;
        let slots = map_vec(
            v,
            (|t: T| -> (s: Option<T>)
                ensures
                    s == Some(t),
                { Some(t) }),
        );
        proof {
            assert(slots@ =~= fresh_slots(source));
        }
        MovableVec { slots }
    }

    /// Builds the container from a fixed-length sequence of any size `N`,
    /// wrapping every element as present, positionally.
    pub fn from_array<const N: usize>(arr: FixedVec<T, N>) -> (r: Self)
        ensures
            r@ == fresh_slots(arr@),
            r@.len() == N,
    {
        let elems = arr.into_vec();
        let ghost source = elems@;
        let slots = map_vec(
            elems,
            (|t: T| -> (s: Option<T>)
                ensures
                    s == Some(t),
                { Some(t) }),
        );
        proof {
            assert(slots@ =~= fresh_slots(source));
        }
        MovableVec { slots }
    }

    /// Takes the element at `index` out of its slot, leaving the slot empty.
    ///
    /// Returns the slot's previous content: the element, present, on the
    /// first take at this position, and an empty marker on every later one.
    /// No other slot is touched. An index at or beyond the slot count is
    /// outside this function's contract, as it is outside the container's
    /// bounds.
    pub fn take(&mut self, index: usize) -> (r: Option<T>)
        requires
            index < old(self)@.len(),
        ensures
            r == old(self)@[index as int],
            final(self)@ == old(self)@.update(index as int, None::<T>),
    {
        let slot = &mut self.slots[index];
        slot.take()
    }

    /// Takes every index of the half-open `range` out of the container, as a
    /// growable sequence of slot contents in ascending index order.
    ///
    /// Unlike single-index [`MovableVec::take`], indices beyond the
    /// container's bounds do not fault: each contributes an empty entry, and
    /// only the in-bounds part of the range is emptied.
    pub fn take_range_vec(&mut self, range: core::ops::Range<usize>) -> (r: Vec<Option<T>>)
        ensures
            r@ == range_take_result(old(self)@, range.start as int, range.end as int),
            final(self)@ == range_take_rest(old(self)@, range.start as int, range.end as int),
    {
        take_range_from_slots(&mut self.slots, range.start, range.end)
    }

    /// Takes every index of the half-open `range` out of the container, as a
    /// fixed-length sequence of `S` slot contents.
    ///
    /// Succeeds exactly when the range covers `S` indices; otherwise it
    /// fails with the range's index count as the observed length. The
    /// in-bounds part of the range is emptied either way, since the
    /// extraction happens before the length check.
    pub fn take_range_array<const S: usize>(&mut self, range: core::ops::Range<usize>) -> (r:
        Result<FixedVec<Option<T>, S>, MovingArrayError>)
        ensures
            final(self)@ == range_take_rest(old(self)@, range.start as int, range.end as int),
            r is Ok <==> range_len(range.start as int, range.end as int) == S,
            r matches Ok(arr) ==> arr@ == range_take_result(
                old(self)@,
                range.start as int,
                range.end as int,
            ),
            r matches Err(e) ==> e == (MovingArrayError::LengthUnmatch {
                expected: S,
                got: range_len(range.start as int, range.end as int) as usize,
            }),
    {
        let taken = self.take_range_vec(range);
        if taken.len() != S {
            let got = taken.len();
            return Err(MovingArrayError::LengthUnmatch { expected: S, got });
        }
        Ok(FixedVec::from_exact(taken))
    }

    /// The slot count, fixed when the container was built.
    pub fn len(&self) -> (n: usize)
        ensures
            n == self@.len(),
    {
        self.slots.len()
    }

    /// Consumes the container and hands back every slot as-is, empties
    /// included, as a growable sequence.
    pub fn into_inner(self) -> (r: Vec<Option<T>>)
        ensures
            r@ == self@,
    {
        self.slots
    }

    /// Borrows the slot at `index` without taking its content.
    pub fn get(&self, index: usize) -> (r: &Option<T>)
        requires
            index < self@.len(),
        ensures
            *r == self@[index as int],
    {
        &self.slots[index]
    }

    /// Applies `f` to every slot positionally, empties included, and builds
    /// a new container of the same slot count from the results.
    ///
    /// `f` receives each slot as it stands, so it must accept an empty slot;
    /// it may answer one with a present element of the new type, which makes
    /// the result's occupancy entirely `f`'s choice.
    pub fn map<R, F: Fn(Option<T>) -> Option<R>>(self, f: F) -> (r: MovableVec<R>)
        requires
            forall|k: int| 0 <= k < self@.len() ==> call_requires(f, (self@[k],)),
        ensures
            r@.len() == self@.len(),
            forall|k: int| 0 <= k < self@.len() ==> call_ensures(f, (self@[k],), #[trigger] r@[k]),
    {
        proof {
            assert(self.slots@ == self@);
        }
        let slots = map_vec(self.slots, f);
        MovableVec { slots }
    }
}

} // verus!
