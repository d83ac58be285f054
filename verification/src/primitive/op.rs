//! Generic bitwise operations for branchless programming.

use vstd::prelude::*;

verus! {

/// A trait that represents a cheaply copyable type.
pub trait Operable: Copy + Sized {
}

impl<T: Copy + Sized> Operable for T {
}

/// A trait representing a type that can be operated on.
///
/// Every operation is specified exactly: the executable method returns the
/// value of the matching spec function, which each implementation defines as
/// the corresponding bitwise operator of the type.
pub trait Operate: Operable {
    /// The bitwise AND of `self` and `target_right`.
    spec fn and_spec(self, target_right: Self) -> Self;

    /// The bitwise OR of `self` and `target_right`.
    spec fn or_spec(self, target_right: Self) -> Self;

    /// The bitwise XOR of `self` and `target_right`.
    spec fn xor_spec(self, target_right: Self) -> Self;

    /// The bitwise complement of `self`.
    spec fn not_spec(self) -> Self;

    /// `self` shifted left by `target_right` bits.
    spec fn shl_spec(self, target_right: Self) -> Self;

    /// `self` shifted right by `target_right` bits.
    spec fn shr_spec(self, target_right: Self) -> Self;

    /// Whether `target_right` is a shift amount the type accepts:
    /// non-negative and strictly below the type's bit width.
    spec fn shift_ok(target_right: Self) -> bool;

    /// Performs the `and` operation.
    fn and(self, target_right: Self) -> (r: Self)
        ensures
            r == self.and_spec(target_right),
    ;

    /// Performs the `or` operation.
    fn or(self, target_right: Self) -> (r: Self)
        ensures
            r == self.or_spec(target_right),
    ;

    /// Performs the `xor` operation.
    fn xor(self, target_right: Self) -> (r: Self)
        ensures
            r == self.xor_spec(target_right),
    ;

    /// Performs the `not` operation.
    fn not(self) -> (r: Self)
        ensures
            r == self.not_spec(),
    ;

    /// Performs the `shl` operation.
    fn shl(self, target_right: Self) -> (r: Self)
        requires
            Self::shift_ok(target_right),
        ensures
            r == self.shl_spec(target_right),
    ;

    /// Performs the `shr` operation.
    fn shr(self, target_right: Self) -> (r: Self)
        requires
            Self::shift_ok(target_right),
        ensures
            r == self.shr_spec(target_right),
    ;
}

impl Operate for u8 {
    open spec fn and_spec(self, target_right: u8) -> u8 {
        self & target_right
    }

    open spec fn or_spec(self, target_right: u8) -> u8 {
        self | target_right
    }

    open spec fn xor_spec(self, target_right: u8) -> u8 {
        self ^ target_right
    }

    open spec fn not_spec(self) -> u8 {
        !self
    }

    open spec fn shl_spec(self, target_right: u8) -> u8 {
        self << target_right
    }

    open spec fn shr_spec(self, target_right: u8) -> u8 {
        self >> target_right
    }

    open spec fn shift_ok(target_right: u8) -> bool {
        target_right < 8
    }

    fn and(self, target_right: u8) -> u8 {
        self & target_right
    }

    fn or(self, target_right: u8) -> u8 {
        self | target_right
    }

    fn xor(self, target_right: u8) -> u8 {
        self ^ target_right
    }

    fn not(self) -> u8 {
        !self
    }

    fn shl(self, target_right: u8) -> u8 {
        self << target_right
    }

    fn shr(self, target_right: u8) -> u8 {
        self >> target_right
    }
}

impl Operate for u16 {
    open spec fn and_spec(self, target_right: u16) -> u16 {
        self & target_right
    }

    open spec fn or_spec(self, target_right: u16) -> u16 {
        self | target_right
    }

    open spec fn xor_spec(self, target_right: u16) -> u16 {
        self ^ target_right
    }

    open spec fn not_spec(self) -> u16 {
        !self
    }

    open spec fn shl_spec(self, target_right: u16) -> u16 {
        self << target_right
    }

    open spec fn shr_spec(self, target_right: u16) -> u16 {
        self >> target_right
    }

    open spec fn shift_ok(target_right: u16) -> bool {
        target_right < 16
    }

    fn and(self, target_right: u16) -> u16 {
        self & target_right
    }

    fn or(self, target_right: u16) -> u16 {
        self | target_right
    }

    fn xor(self, target_right: u16) -> u16 {
        self ^ target_right
    }

    fn not(self) -> u16 {
        !self
    }

    fn shl(self, target_right: u16) -> u16 {
        self << target_right
    }

    fn shr(self, target_right: u16) -> u16 {
        self >> target_right
    }
}

impl Operate for u32 {
    open spec fn and_spec(self, target_right: u32) -> u32 {
        self & target_right
    }

    open spec fn or_spec(self, target_right: u32) -> u32 {
        self | target_right
    }

    open spec fn xor_spec(self, target_right: u32) -> u32 {
        self ^ target_right
    }

    open spec fn not_spec(self) -> u32 {
        !self
    }

    open spec fn shl_spec(self, target_right: u32) -> u32 {
        self << target_right
    }

    open spec fn shr_spec(self, target_right: u32) -> u32 {
        self >> target_right
    }

    open spec fn shift_ok(target_right: u32) -> bool {
        target_right < 32
    }

    fn and(self, target_right: u32) -> u32 {
        self & target_right
    }

    fn or(self, target_right: u32) -> u32 {
        self | target_right
    }

    fn xor(self, target_right: u32) -> u32 {
        self ^ target_right
    }

    fn not(self) -> u32 {
        !self
    }

    fn shl(self, target_right: u32) -> u32 {
        self << target_right
    }

    fn shr(self, target_right: u32) -> u32 {
        self >> target_right
    }
}

impl Operate for u64 {
    open spec fn and_spec(self, target_right: u64) -> u64 {
        self & target_right
    }

    open spec fn or_spec(self, target_right: u64) -> u64 {
        self | target_right
    }

    open spec fn xor_spec(self, target_right: u64) -> u64 {
        self ^ target_right
    }

    open spec fn not_spec(self) -> u64 {
        !self
    }

    open spec fn shl_spec(self, target_right: u64) -> u64 {
        self << target_right
    }

    open spec fn shr_spec(self, target_right: u64) -> u64 {
        self >> target_right
    }

    open spec fn shift_ok(target_right: u64) -> bool {
        target_right < 64
    }

    fn and(self, target_right: u64) -> u64 {
        self & target_right
    }

    fn or(self, target_right: u64) -> u64 {
        self | target_right
    }

    fn xor(self, target_right: u64) -> u64 {
        self ^ target_right
    }

    fn not(self) -> u64 {
        !self
    }

    fn shl(self, target_right: u64) -> u64 {
        self << target_right
    }

    fn shr(self, target_right: u64) -> u64 {
        self >> target_right
    }
}

impl Operate for u128 {
    open spec fn and_spec(self, target_right: u128) -> u128 {
        self & target_right
    }

    open spec fn or_spec(self, target_right: u128) -> u128 {
        self | target_right
    }

    open spec fn xor_spec(self, target_right: u128) -> u128 {
        self ^ target_right
    }

    open spec fn not_spec(self) -> u128 {
        !self
    }

    open spec fn shl_spec(self, target_right: u128) -> u128 {
        self << target_right
    }

    open spec fn shr_spec(self, target_right: u128) -> u128 {
        self >> target_right
    }

    open spec fn shift_ok(target_right: u128) -> bool {
        target_right < 128
    }

    fn and(self, target_right: u128) -> u128 {
        self & target_right
    }

    fn or(self, target_right: u128) -> u128 {
        self | target_right
    }

    fn xor(self, target_right: u128) -> u128 {
        self ^ target_right
    }

    fn not(self) -> u128 {
        !self
    }

    fn shl(self, target_right: u128) -> u128 {
        self << target_right
    }

    fn shr(self, target_right: u128) -> u128 {
        self >> target_right
    }
}

impl Operate for usize {
    open spec fn and_spec(self, target_right: usize) -> usize {
        self & target_right
    }

    open spec fn or_spec(self, target_right: usize) -> usize {
        self | target_right
    }

    open spec fn xor_spec(self, target_right: usize) -> usize {
        self ^ target_right
    }

    open spec fn not_spec(self) -> usize {
        !self
    }

    open spec fn shl_spec(self, target_right: usize) -> usize {
        self << target_right
    }

    open spec fn shr_spec(self, target_right: usize) -> usize {
        self >> target_right
    }

    open spec fn shift_ok(target_right: usize) -> bool {
        target_right < usize::BITS
    }

    fn and(self, target_right: usize) -> usize {
        self & target_right
    }

    fn or(self, target_right: usize) -> usize {
        self | target_right
    }

    fn xor(self, target_right: usize) -> usize {
        self ^ target_right
    }

    fn not(self) -> usize {
        !self
    }

    fn shl(self, target_right: usize) -> usize {
        self << target_right
    }

    fn shr(self, target_right: usize) -> usize {
        self >> target_right
    }
}

impl Operate for i8 {
    open spec fn and_spec(self, target_right: i8) -> i8 {
        self & target_right
    }

    open spec fn or_spec(self, target_right: i8) -> i8 {
        self | target_right
    }

    open spec fn xor_spec(self, target_right: i8) -> i8 {
        self ^ target_right
    }

    open spec fn not_spec(self) -> i8 {
        !self
    }

    open spec fn shl_spec(self, target_right: i8) -> i8 {
        self << target_right
    }

    open spec fn shr_spec(self, target_right: i8) -> i8 {
        self >> target_right
    }

    open spec fn shift_ok(target_right: i8) -> bool {
        0 <= target_right < 8
    }

    fn and(self, target_right: i8) -> i8 {
        self & target_right
    }

    fn or(self, target_right: i8) -> i8 {
        self | target_right
    }

    fn xor(self, target_right: i8) -> i8 {
        self ^ target_right
    }

    fn not(self) -> i8 {
        !self
    }

    fn shl(self, target_right: i8) -> i8 {
        self << target_right
    }

    fn shr(self, target_right: i8) -> i8 {
        self >> target_right
    }
}

impl Operate for i16 {
    open spec fn and_spec(self, target_right: i16) -> i16 {
        self & target_right
    }

    open spec fn or_spec(self, target_right: i16) -> i16 {
        self | target_right
    }

    open spec fn xor_spec(self, target_right: i16) -> i16 {
        self ^ target_right
    }

    open spec fn not_spec(self) -> i16 {
        !self
    }

    open spec fn shl_spec(self, target_right: i16) -> i16 {
        self << target_right
    }

    open spec fn shr_spec(self, target_right: i16) -> i16 {
        self >> target_right
    }

    open spec fn shift_ok(target_right: i16) -> bool {
        0 <= target_right < 16
    }

    fn and(self, target_right: i16) -> i16 {
        self & target_right
    }

    fn or(self, target_right: i16) -> i16 {
        self | target_right
    }

    fn xor(self, target_right: i16) -> i16 {
        self ^ target_right
    }

    fn not(self) -> i16 {
        !self
    }

    fn shl(self, target_right: i16) -> i16 {
        self << target_right
    }

    fn shr(self, target_right: i16) -> i16 {
        self >> target_right
    }
}

impl Operate for i32 {
    open spec fn and_spec(self, target_right: i32) -> i32 {
        self & target_right
    }

    open spec fn or_spec(self, target_right: i32) -> i32 {
        self | target_right
    }

    open spec fn xor_spec(self, target_right: i32) -> i32 {
        self ^ target_right
    }

    open spec fn not_spec(self) -> i32 {
        !self
    }

    open spec fn shl_spec(self, target_right: i32) -> i32 {
        self << target_right
    }

    open spec fn shr_spec(self, target_right: i32) -> i32 {
        self >> target_right
    }

    open spec fn shift_ok(target_right: i32) -> bool {
        0 <= target_right < 32
    }

    fn and(self, target_right: i32) -> i32 {
        self & target_right
    }

    fn or(self, target_right: i32) -> i32 {
        self | target_right
    }

    fn xor(self, target_right: i32) -> i32 {
        self ^ target_right
    }

    fn not(self) -> i32 {
        !self
    }

    fn shl(self, target_right: i32) -> i32 {
        self << target_right
    }

    fn shr(self, target_right: i32) -> i32 {
        self >> target_right
    }
}

impl Operate for i64 {
    open spec fn and_spec(self, target_right: i64) -> i64 {
        self & target_right
    }

    open spec fn or_spec(self, target_right: i64) -> i64 {
        self | target_right
    }

    open spec fn xor_spec(self, target_right: i64) -> i64 {
        self ^ target_right
    }

    open spec fn not_spec(self) -> i64 {
        !self
    }

    open spec fn shl_spec(self, target_right: i64) -> i64 {
        self << target_right
    }

    open spec fn shr_spec(self, target_right: i64) -> i64 {
        self >> target_right
    }

    open spec fn shift_ok(target_right: i64) -> bool {
        0 <= target_right < 64
    }

    fn and(self, target_right: i64) -> i64 {
        self & target_right
    }

    fn or(self, target_right: i64) -> i64 {
        self | target_right
    }

    fn xor(self, target_right: i64) -> i64 {
        self ^ target_right
    }

    fn not(self) -> i64 {
        !self
    }

    fn shl(self, target_right: i64) -> i64 {
        self << target_right
    }

    fn shr(self, target_right: i64) -> i64 {
        self >> target_right
    }
}

impl Operate for i128 {
    open spec fn and_spec(self, target_right: i128) -> i128 {
        self & target_right
    }

    open spec fn or_spec(self, target_right: i128) -> i128 {
        self | target_right
    }

    open spec fn xor_spec(self, target_right: i128) -> i128 {
        self ^ target_right
    }

    open spec fn not_spec(self) -> i128 {
        !self
    }

    open spec fn shl_spec(self, target_right: i128) -> i128 {
        self << target_right
    }

    open spec fn shr_spec(self, target_right: i128) -> i128 {
        self >> target_right
    }

    open spec fn shift_ok(target_right: i128) -> bool {
        0 <= target_right < 128
    }

    fn and(self, target_right: i128) -> i128 {
        self & target_right
    }

    fn or(self, target_right: i128) -> i128 {
        self | target_right
    }

    fn xor(self, target_right: i128) -> i128 {
        self ^ target_right
    }

    fn not(self) -> i128 {
        !self
    }

    fn shl(self, target_right: i128) -> i128 {
        self << target_right
    }

    fn shr(self, target_right: i128) -> i128 {
        self >> target_right
    }
}

impl Operate for isize {
    open spec fn and_spec(self, target_right: isize) -> isize {
        self & target_right
    }

    open spec fn or_spec(self, target_right: isize) -> isize {
        self | target_right
    }

    open spec fn xor_spec(self, target_right: isize) -> isize {
        self ^ target_right
    }

    open spec fn not_spec(self) -> isize {
        !self
    }

    open spec fn shl_spec(self, target_right: isize) -> isize {
        self << target_right
    }

    open spec fn shr_spec(self, target_right: isize) -> isize {
        self >> target_right
    }

    open spec fn shift_ok(target_right: isize) -> bool {
        0 <= target_right < isize::BITS
    }

    fn and(self, target_right: isize) -> isize {
        self & target_right
    }

    fn or(self, target_right: isize) -> isize {
        self | target_right
    }

    fn xor(self, target_right: isize) -> isize {
        self ^ target_right
    }

    fn not(self) -> isize {
        !self
    }

    fn shl(self, target_right: isize) -> isize {
        self << target_right
    }

    fn shr(self, target_right: isize) -> isize {
        self >> target_right
    }
}
} // verus!
