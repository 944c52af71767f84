use vstd::prelude::*;

verus! {

/// The single recoverable error of this crate.
///
/// Raised whenever an operation that demands an exact length and capacity
/// match (exact-length reinterpretation, fixed-count construction from a
/// growable sequence, range extraction into a fixed-length sequence) receives
/// an input that does not satisfy it. It carries the size the operation
/// asked for and the length it observed, so the caller can correct the input.
#[derive(Debug)]
pub enum MovingArrayError {
    LengthUnmatch { expected: usize, got: usize },
}

} // verus!
