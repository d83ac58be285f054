//! The private marker that closes the primitive family.

use vstd::prelude::*;

verus! {

/// Marker supertrait that keeps the primitive family closed: it is only
/// reachable inside the crate, so no outside type can join the family.
pub trait Sealed {
}

impl Sealed for u8 {
}

impl Sealed for u16 {
}

impl Sealed for u32 {
}

impl Sealed for u64 {
}

impl Sealed for u128 {
}

impl Sealed for usize {
}

impl Sealed for i8 {
}

impl Sealed for i16 {
}

impl Sealed for i32 {
}

impl Sealed for i64 {
}

impl Sealed for i128 {
}

impl Sealed for isize {
}
} // verus!
