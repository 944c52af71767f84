use crate::error::MovingArrayError;
use vstd::prelude::*;

verus! {

/// An owned, ordered sequence of exactly `N` elements of `T`.
///
/// This is the fixed-length flavor of sequence: its length and its capacity
/// coincide with `N` by definition, and neither changes for the value's
/// lifetime. The elements live in a heap allocation that is moved around
/// whole; a type invariant pins the logical length to `N`, so element types
/// need not support duplication or default construction.
pub struct FixedVec<T, const N: usize> {
    elems: Vec<T>,
}

impl<T, const N: usize> View for FixedVec<T, N> {
    type V = Seq<T>;

    closed spec fn view(&self) -> Seq<T> {
        self.elems@
    }
}

impl<T, const N: usize> FixedVec<T, N> {
    #[verifier::type_invariant]
    spec fn exactly_n(self) -> bool {
        self.elems@.len() == N
    }

    /// Wraps a vector already known to hold exactly `N` elements.
    pub(crate) fn from_exact(elems: Vec<T>) -> (r: Self)
        requires
            elems@.len() == N,
        ensures
            r@ == elems@,
    {
        FixedVec { elems }
    }

    /// The number of elements, which is always `N`.
    pub fn len(&self) -> (n: usize)
        ensures
            n == N,
            self@.len() == N,
    {
        proof {
            use_type_invariant(self);
        }
        self.elems.len()
    }

    /// Borrows the element at `index`.
    pub fn get(&self, index: usize) -> (r: &T)
        requires
            index < N,
        ensures
            *r == self@[index as int],
    {
        proof {
            use_type_invariant(self);
        }
        &self.elems[index]
    }

    /// Hands the elements back as a growable sequence.
    pub fn into_vec(self) -> (r: Vec<T>)
        ensures
            r@ == self@,
            r@.len() == N,
    {
        proof {
            use_type_invariant(&self);
        }
        self.elems
    }
}

/// Relies on `Vec::capacity` of std: the number of elements the allocation
/// can hold without reallocating, never below the current length.
#[verifier::external_body]
fn vec_capacity<T>(v: &Vec<T>) -> (r: usize)
    ensures
        r >= v@.len(),
{
    v.capacity()
}

/// Turns a growable sequence into a fixed-length one, checking length and
/// capacity against a caller-supplied capacity value.
///
/// This is the whole conversion logic with the one machine-dependent input,
/// the source's allocated capacity, taken as an ordinary argument: the
/// conversion succeeds exactly when the length and that capacity both equal
/// `N`. [`move_vec_to_array`] reads the real capacity and delegates here.
pub fn move_vec_to_array_with_capacity<T, const N: usize>(
    vec: Vec<T>,
    capacity: usize,
) -> (r: Result<FixedVec<T, N>, MovingArrayError>)
    ensures
        r is Ok <==> (vec@.len() == N && capacity == N),
        r matches Ok(arr) ==> arr@ == vec@,
        r matches Err(e) ==> e == (MovingArrayError::LengthUnmatch {
            expected: N,
            got: vec.len(),
        }),
{
    if vec.len() != N || capacity != N {
        let got = vec.len();
        return Err(MovingArrayError::LengthUnmatch { expected: N, got });
    }
    Ok(FixedVec::from_exact(vec))
}

/// Moves a vector into a fixed-length sequence of `N` elements.
///
/// The conversion reuses the source's backing allocation as a whole: no
/// element is copied, default-constructed or dropped. It is legal only when
/// the source's length and its allocated capacity both equal `N`; otherwise
/// it fails with [`MovingArrayError::LengthUnmatch`] carrying `N` and the
/// observed length. Because an allocation's capacity is decided by the
/// allocator, a length of exactly `N` alone does not guarantee success.
pub fn move_vec_to_array<T, const N: usize>(vec: Vec<T>) -> (r: Result<
    FixedVec<T, N>,
    MovingArrayError,
>)
    ensures
        r matches Ok(arr) ==> arr@ == vec@ && vec@.len() == N,
        vec@.len() != N ==> r is Err,
        r matches Err(e) ==> e == (MovingArrayError::LengthUnmatch {
            expected: N,
            got: vec.len(),
        }),
{
    let capacity = vec_capacity(&vec);
    move_vec_to_array_with_capacity(vec, capacity)
}

} // verus!
