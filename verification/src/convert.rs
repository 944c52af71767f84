use crate::error::MovingArrayError;
use crate::fixed::FixedVec;
use crate::movable_array::MovableArray;
use crate::movable_vec::MovableVec;
use crate::slots::fresh_slots;
use vstd::prelude::*;

verus! {

/// Either source flavor a slot container can be built from: a growable
/// sequence or a fixed-length one of size `N`.
pub enum VecOrArray<T, const N: usize> {
    Dynamic(Vec<T>),
    Fixed(FixedVec<T, N>),
}

/// The element sequence of either source flavor.
pub open spec fn source_elems<T, const N: usize>(src: VecOrArray<T, N>) -> Seq<T> {
    match src {
        VecOrArray::Dynamic(v) => v@,
        VecOrArray::Fixed(a) => a@,
    }
}

/// A source a slot container can be built from.
///
/// Implementations say, through `spec_vec_or_array`, which flavor they are;
/// the entry points [`nmovable`] and [`movable`] dispatch on it.
pub trait IntoVecOrArray<T, const N: usize>: Sized {
    /// The flavor this source turns into.
    spec fn spec_vec_or_array(self) -> VecOrArray<T, N>;

    /// Turns this source into its flavor, moving the elements.
    fn vec_or_array(self) -> (r: VecOrArray<T, N>)
        ensures
            r == self.spec_vec_or_array(),
    ;
}

impl<T, const N: usize> IntoVecOrArray<T, N> for Vec<T> {
    open spec fn spec_vec_or_array(self) -> VecOrArray<T, N> {
        VecOrArray::Dynamic(self)
    }

    fn vec_or_array(self) -> (r: VecOrArray<T, N>) {
        VecOrArray::Dynamic(self)
    }
}

impl<T, const N: usize> IntoVecOrArray<T, N> for FixedVec<T, N> {
    open spec fn spec_vec_or_array(self) -> VecOrArray<T, N> {
        VecOrArray::Fixed(self)
    }

    fn vec_or_array(self) -> (r: VecOrArray<T, N>) {
        VecOrArray::Fixed(self)
    }
}

/// Builds a fixed-count slot container of size `N` from either source
/// flavor.
///
/// A fixed-length source always succeeds; a growable one must have length
/// and allocated capacity exactly `N`, and otherwise fails with the size
/// asked for and the length observed.
pub fn nmovable<T, const N: usize, I: IntoVecOrArray<T, N>>(input: I) -> (r: Result<
    MovableArray<T, N>,
    MovingArrayError,
>)
    ensures
        r matches Ok(c) ==> c.wf() && c@ == fresh_slots(source_elems(input.spec_vec_or_array())),
        input.spec_vec_or_array() is Fixed ==> r is Ok,
        input.spec_vec_or_array() matches VecOrArray::Dynamic(v) ==> {
            &&& v@.len() != N ==> r is Err
            &&& (r matches Err(e) ==> e == (MovingArrayError::LengthUnmatch {
                expected: N,
                got: v.len(),
            }))
        },
{
    match input.vec_or_array() {
        VecOrArray::Fixed(arr) => Ok(MovableArray::from_array(arr)),
        VecOrArray::Dynamic(vec) => MovableArray::from_vec(vec),
    }
}

/// Builds an unconstrained slot container from either source flavor. Never
/// fails: there is no fixed external size to check against.
pub fn movable<T, const N: usize, I: IntoVecOrArray<T, N>>(input: I) -> (r: MovableVec<T>)
    ensures
        r@ == fresh_slots(source_elems(input.spec_vec_or_array())),
{
    match input.vec_or_array() {
        VecOrArray::Fixed(arr) => MovableVec::from_array(arr),
        VecOrArray::Dynamic(vec) => MovableVec::from_vec(vec),
    }
}

/// Conversion into a fixed-count slot container, as a method.
///
/// `x.to_nmovable()` promises exactly what [`nmovable`]`(x)` does.
pub trait ToNMovable<T, const N: usize>: IntoVecOrArray<T, N> {
    /// Turns this source into a [`MovableArray`] of size `N`.
    fn to_nmovable(self) -> (r: Result<MovableArray<T, N>, MovingArrayError>)
        ensures
            r matches Ok(c) ==> c.wf() && c@ == fresh_slots(
                source_elems(self.spec_vec_or_array()),
            ),
            self.spec_vec_or_array() is Fixed ==> r is Ok,
            self.spec_vec_or_array() matches VecOrArray::Dynamic(v) ==> {
                &&& v@.len() != N ==> r is Err
                &&& (r matches Err(e) ==> e == (MovingArrayError::LengthUnmatch {
                    expected: N,
                    got: v.len(),
                }))
            },
    ;
}

impl<T, const N: usize> ToNMovable<T, N> for Vec<T> {
    fn to_nmovable(self) -> (r: Result<MovableArray<T, N>, MovingArrayError>) {
        MovableArray::from_vec(self)
    }
}

impl<T, const N: usize> ToNMovable<T, N> for FixedVec<T, N> {
    /// Always succeeds: the size is known to be `N`.
    fn to_nmovable(self) -> (r: Result<MovableArray<T, N>, MovingArrayError>) {
        Ok(MovableArray::from_array(self))
    }
}

/// Conversion into an unconstrained slot container, as a method.
pub trait ToMovable<T>: Sized {
    /// The elements this source hands over, in order.
    spec fn movable_elems(self) -> Seq<T>;

    /// Turns this source into a [`MovableVec`], every element present.
    fn to_movable(self) -> (r: MovableVec<T>)
        ensures
            r@ == fresh_slots(self.movable_elems()),
    ;
}

impl<T> ToMovable<T> for Vec<T> {
    open spec fn movable_elems(self) -> Seq<T> {
        self@
    }

    fn to_movable(self) -> (r: MovableVec<T>) {
        MovableVec::from_vec(self)
    }
}

impl<T, const N: usize> ToMovable<T> for FixedVec<T, N> {
    open spec fn movable_elems(self) -> Seq<T> {
        self@
    }

    /// Always succeeds; the size `N` is not recorded in the result.
    fn to_movable(self) -> (r: MovableVec<T>) {
        MovableVec::from_array(self)
    }
}

} // verus!
