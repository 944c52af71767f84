//! Collections whose elements can be moved out one slot at a time.
//!
//! Two facilities are offered, neither of which asks the element type for
//! duplication, a default value, or an ordering:
//!
//! * an exact-length conversion that turns an owned, growable sequence into a
//!   fixed-length one ([`move_vec_to_array`]), legal only when the source's
//!   length and allocated capacity both equal the target size;
//! * slot containers ([`MovableArray`] with a fixed slot count,
//!   [`MovableVec`] without one) that wrap every element in a per-slot
//!   presence marker, so single elements can be taken out by position while
//!   the rest of the collection stays usable.
//!
//! The entry points [`nmovable`] and [`movable`] accept either source flavor
//! and build the fixed-count or the unconstrained container respectively.

mod convert;
mod error;
mod fixed;
mod movable_array;
mod movable_vec;
mod slots;

pub use convert::movable;
pub use convert::nmovable;
pub use convert::source_elems;
pub use convert::IntoVecOrArray;
pub use convert::ToMovable;
pub use convert::ToNMovable;
pub use convert::VecOrArray;
pub use error::MovingArrayError;
pub use fixed::move_vec_to_array;
pub use fixed::move_vec_to_array_with_capacity;
pub use fixed::FixedVec;
pub use movable_array::MovableArray;
pub use movable_vec::MovableVec;
pub use slots::fresh_slots;
pub use slots::lemma_fresh_range_take;
pub use slots::lemma_fresh_take;
pub use slots::lemma_take_idempotent;
pub use slots::range_len;
pub use slots::range_take_rest;
pub use slots::range_take_result;
