//! Facilities for casting between primitive types in a generic fashion.
//!
//! See [`Cast`] for more information.

use vstd::prelude::*;

verus! {

/// A trait for casting between primitive types.
///
/// The specification of every implementation is the truncating,
/// bit-reinterpreting numeric conversion: widening zero-extends an unsigned
/// source and sign-extends a signed one, narrowing keeps the low bits of the
/// source, and the result is read back in the signedness of the target.
/// This is exactly the meaning of a raw `as` cast between the two types.
pub trait Cast<O>: Sized {
    /// The value of `self` converted to the target type, as a raw
    /// truncating numeric cast converts it.
    spec fn cast_spec(self) -> O;

    /// Explicitly cast the value to the target type.
    ///
    /// NOTE: This cast may result in truncation of bits.
    fn cast(self) -> (r: O)
        ensures
            r == self.cast_spec(),
    ;
}

impl Cast<u8> for u8 {
    open spec fn cast_spec(self) -> u8 {
        self as u8
    }

    fn cast(self) -> u8 {
        self as u8
    }
}

impl Cast<u16> for u8 {
    open spec fn cast_spec(self) -> u16 {
        self as u16
    }

    fn cast(self) -> u16 {
        self as u16
    }
}

impl Cast<u32> for u8 {
    open spec fn cast_spec(self) -> u32 {
        self as u32
    }

    fn cast(self) -> u32 {
        self as u32
    }
}

impl Cast<u64> for u8 {
    open spec fn cast_spec(self) -> u64 {
        self as u64
    }

    fn cast(self) -> u64 {
        self as u64
    }
}

impl Cast<u128> for u8 {
    open spec fn cast_spec(self) -> u128 {
        self as u128
    }

    fn cast(self) -> u128 {
        self as u128
    }
}

impl Cast<usize> for u8 {
    open spec fn cast_spec(self) -> usize {
        self as usize
    }

    fn cast(self) -> usize {
        self as usize
    }
}

impl Cast<i8> for u8 {
    open spec fn cast_spec(self) -> i8 {
        self as i8
    }

    fn cast(self) -> i8 {
        #[verifier::truncate] (self as i8)
    }
}

impl Cast<i16> for u8 {
    open spec fn cast_spec(self) -> i16 {
        self as i16
    }

    fn cast(self) -> i16 {
        self as i16
    }
}

impl Cast<i32> for u8 {
    open spec fn cast_spec(self) -> i32 {
        self as i32
    }

    fn cast(self) -> i32 {
        self as i32
    }
}

impl Cast<i64> for u8 {
    open spec fn cast_spec(self) -> i64 {
        self as i64
    }

    fn cast(self) -> i64 {
        self as i64
    }
}

impl Cast<i128> for u8 {
    open spec fn cast_spec(self) -> i128 {
        self as i128
    }

    fn cast(self) -> i128 {
        self as i128
    }
}

impl Cast<isize> for u8 {
    open spec fn cast_spec(self) -> isize {
        self as isize
    }

    fn cast(self) -> isize {
        self as isize
    }
}

impl Cast<u8> for u16 {
    open spec fn cast_spec(self) -> u8 {
        self as u8
    }

    fn cast(self) -> u8 {
        #[verifier::truncate] (self as u8)
    }
}

impl Cast<u16> for u16 {
    open spec fn cast_spec(self) -> u16 {
        self as u16
    }

    fn cast(self) -> u16 {
        self as u16
    }
}

impl Cast<u32> for u16 {
    open spec fn cast_spec(self) -> u32 {
        self as u32
    }

    fn cast(self) -> u32 {
        self as u32
    }
}

impl Cast<u64> for u16 {
    open spec fn cast_spec(self) -> u64 {
        self as u64
    }

    fn cast(self) -> u64 {
        self as u64
    }
}

impl Cast<u128> for u16 {
    open spec fn cast_spec(self) -> u128 {
        self as u128
    }

    fn cast(self) -> u128 {
        self as u128
    }
}

impl Cast<usize> for u16 {
    open spec fn cast_spec(self) -> usize {
        self as usize
    }

    fn cast(self) -> usize {
        self as usize
    }
}

impl Cast<i8> for u16 {
    open spec fn cast_spec(self) -> i8 {
        self as i8
    }

    fn cast(self) -> i8 {
        #[verifier::truncate] (self as i8)
    }
}

impl Cast<i16> for u16 {
    open spec fn cast_spec(self) -> i16 {
        self as i16
    }

    fn cast(self) -> i16 {
        #[verifier::truncate] (self as i16)
    }
}

impl Cast<i32> for u16 {
    open spec fn cast_spec(self) -> i32 {
        self as i32
    }

    fn cast(self) -> i32 {
        self as i32
    }
}

impl Cast<i64> for u16 {
    open spec fn cast_spec(self) -> i64 {
        self as i64
    }

    fn cast(self) -> i64 {
        self as i64
    }
}

impl Cast<i128> for u16 {
    open spec fn cast_spec(self) -> i128 {
        self as i128
    }

    fn cast(self) -> i128 {
        self as i128
    }
}

impl Cast<isize> for u16 {
    open spec fn cast_spec(self) -> isize {
        self as isize
    }

    fn cast(self) -> isize {
        self as isize
    }
}

impl Cast<u8> for u32 {
    open spec fn cast_spec(self) -> u8 {
        self as u8
    }

    fn cast(self) -> u8 {
        #[verifier::truncate] (self as u8)
    }
}

impl Cast<u16> for u32 {
    open spec fn cast_spec(self) -> u16 {
        self as u16
    }

    fn cast(self) -> u16 {
        #[verifier::truncate] (self as u16)
    }
}

impl Cast<u32> for u32 {
    open spec fn cast_spec(self) -> u32 {
        self as u32
    }

    fn cast(self) -> u32 {
        self as u32
    }
}

impl Cast<u64> for u32 {
    open spec fn cast_spec(self) -> u64 {
        self as u64
    }

    fn cast(self) -> u64 {
        self as u64
    }
}

impl Cast<u128> for u32 {
    open spec fn cast_spec(self) -> u128 {
        self as u128
    }

    fn cast(self) -> u128 {
        self as u128
    }
}

impl Cast<usize> for u32 {
    open spec fn cast_spec(self) -> usize {
        self as usize
    }

    fn cast(self) -> usize {
        self as usize
    }
}

impl Cast<i8> for u32 {
    open spec fn cast_spec(self) -> i8 {
        self as i8
    }

    fn cast(self) -> i8 {
        #[verifier::truncate] (self as i8)
    }
}

impl Cast<i16> for u32 {
    open spec fn cast_spec(self) -> i16 {
        self as i16
    }

    fn cast(self) -> i16 {
        #[verifier::truncate] (self as i16)
    }
}

impl Cast<i32> for u32 {
    open spec fn cast_spec(self) -> i32 {
        self as i32
    }

    fn cast(self) -> i32 {
        #[verifier::truncate] (self as i32)
    }
}

impl Cast<i64> for u32 {
    open spec fn cast_spec(self) -> i64 {
        self as i64
    }

    fn cast(self) -> i64 {
        self as i64
    }
}

impl Cast<i128> for u32 {
    open spec fn cast_spec(self) -> i128 {
        self as i128
    }

    fn cast(self) -> i128 {
        self as i128
    }
}

impl Cast<isize> for u32 {
    open spec fn cast_spec(self) -> isize {
        self as isize
    }

    fn cast(self) -> isize {
        #[verifier::truncate] (self as isize)
    }
}

impl Cast<u8> for u64 {
    open spec fn cast_spec(self) -> u8 {
        self as u8
    }

    fn cast(self) -> u8 {
        #[verifier::truncate] (self as u8)
    }
}

impl Cast<u16> for u64 {
    open spec fn cast_spec(self) -> u16 {
        self as u16
    }

    fn cast(self) -> u16 {
        #[verifier::truncate] (self as u16)
    }
}

impl Cast<u32> for u64 {
    open spec fn cast_spec(self) -> u32 {
        self as u32
    }

    fn cast(self) -> u32 {
        #[verifier::truncate] (self as u32)
    }
}

impl Cast<u64> for u64 {
    open spec fn cast_spec(self) -> u64 {
        self as u64
    }

    fn cast(self) -> u64 {
        self as u64
    }
}

impl Cast<u128> for u64 {
    open spec fn cast_spec(self) -> u128 {
        self as u128
    }

    fn cast(self) -> u128 {
        self as u128
    }
}

impl Cast<usize> for u64 {
    open spec fn cast_spec(self) -> usize {
        self as usize
    }

    fn cast(self) -> usize {
        #[verifier::truncate] (self as usize)
    }
}

impl Cast<i8> for u64 {
    open spec fn cast_spec(self) -> i8 {
        self as i8
    }

    fn cast(self) -> i8 {
        #[verifier::truncate] (self as i8)
    }
}

impl Cast<i16> for u64 {
    open spec fn cast_spec(self) -> i16 {
        self as i16
    }

    fn cast(self) -> i16 {
        #[verifier::truncate] (self as i16)
    }
}

impl Cast<i32> for u64 {
    open spec fn cast_spec(self) -> i32 {
        self as i32
    }

    fn cast(self) -> i32 {
        #[verifier::truncate] (self as i32)
    }
}

impl Cast<i64> for u64 {
    open spec fn cast_spec(self) -> i64 {
        self as i64
    }

    fn cast(self) -> i64 {
        #[verifier::truncate] (self as i64)
    }
}

impl Cast<i128> for u64 {
    open spec fn cast_spec(self) -> i128 {
        self as i128
    }

    fn cast(self) -> i128 {
        self as i128
    }
}

impl Cast<isize> for u64 {
    open spec fn cast_spec(self) -> isize {
        self as isize
    }

    fn cast(self) -> isize {
        #[verifier::truncate] (self as isize)
    }
}

impl Cast<u8> for u128 {
    open spec fn cast_spec(self) -> u8 {
        self as u8
    }

    fn cast(self) -> u8 {
        #[verifier::truncate] (self as u8)
    }
}

impl Cast<u16> for u128 {
    open spec fn cast_spec(self) -> u16 {
        self as u16
    }

    fn cast(self) -> u16 {
        #[verifier::truncate] (self as u16)
    }
}

impl Cast<u32> for u128 {
    open spec fn cast_spec(self) -> u32 {
        self as u32
    }

    fn cast(self) -> u32 {
        #[verifier::truncate] (self as u32)
    }
}

impl Cast<u64> for u128 {
    open spec fn cast_spec(self) -> u64 {
        self as u64
    }

    fn cast(self) -> u64 {
        #[verifier::truncate] (self as u64)
    }
}

impl Cast<u128> for u128 {
    open spec fn cast_spec(self) -> u128 {
        self as u128
    }

    fn cast(self) -> u128 {
        self as u128
    }
}

impl Cast<usize> for u128 {
    open spec fn cast_spec(self) -> usize {
        self as usize
    }

    fn cast(self) -> usize {
        #[verifier::truncate] (self as usize)
    }
}

impl Cast<i8> for u128 {
    open spec fn cast_spec(self) -> i8 {
        self as i8
    }

    fn cast(self) -> i8 {
        #[verifier::truncate] (self as i8)
    }
}

impl Cast<i16> for u128 {
    open spec fn cast_spec(self) -> i16 {
        self as i16
    }

    fn cast(self) -> i16 {
        #[verifier::truncate] (self as i16)
    }
}

impl Cast<i32> for u128 {
    open spec fn cast_spec(self) -> i32 {
        self as i32
    }

    fn cast(self) -> i32 {
        #[verifier::truncate] (self as i32)
    }
}

impl Cast<i64> for u128 {
    open spec fn cast_spec(self) -> i64 {
        self as i64
    }

    fn cast(self) -> i64 {
        #[verifier::truncate] (self as i64)
    }
}

impl Cast<i128> for u128 {
    open spec fn cast_spec(self) -> i128 {
        self as i128
    }

    fn cast(self) -> i128 {
        #[verifier::truncate] (self as i128)
    }
}

impl Cast<isize> for u128 {
    open spec fn cast_spec(self) -> isize {
        self as isize
    }

    fn cast(self) -> isize {
        #[verifier::truncate] (self as isize)
    }
}

impl Cast<u8> for usize {
    open spec fn cast_spec(self) -> u8 {
        self as u8
    }

    fn cast(self) -> u8 {
        #[verifier::truncate] (self as u8)
    }
}

impl Cast<u16> for usize {
    open spec fn cast_spec(self) -> u16 {
        self as u16
    }

    fn cast(self) -> u16 {
        #[verifier::truncate] (self as u16)
    }
}

impl Cast<u32> for usize {
    open spec fn cast_spec(self) -> u32 {
        self as u32
    }

    fn cast(self) -> u32 {
        #[verifier::truncate] (self as u32)
    }
}

impl Cast<u64> for usize {
    open spec fn cast_spec(self) -> u64 {
        self as u64
    }

    fn cast(self) -> u64 {
        self as u64
    }
}

impl Cast<u128> for usize {
    open spec fn cast_spec(self) -> u128 {
        self as u128
    }

    fn cast(self) -> u128 {
        self as u128
    }
}

impl Cast<usize> for usize {
    open spec fn cast_spec(self) -> usize {
        self as usize
    }

    fn cast(self) -> usize {
        self as usize
    }
}

impl Cast<i8> for usize {
    open spec fn cast_spec(self) -> i8 {
        self as i8
    }

    fn cast(self) -> i8 {
        #[verifier::truncate] (self as i8)
    }
}

impl Cast<i16> for usize {
    open spec fn cast_spec(self) -> i16 {
        self as i16
    }

    fn cast(self) -> i16 {
        #[verifier::truncate] (self as i16)
    }
}

impl Cast<i32> for usize {
    open spec fn cast_spec(self) -> i32 {
        self as i32
    }

    fn cast(self) -> i32 {
        #[verifier::truncate] (self as i32)
    }
}

impl Cast<i64> for usize {
    open spec fn cast_spec(self) -> i64 {
        self as i64
    }

    fn cast(self) -> i64 {
        #[verifier::truncate] (self as i64)
    }
}

impl Cast<i128> for usize {
    open spec fn cast_spec(self) -> i128 {
        self as i128
    }

    fn cast(self) -> i128 {
        self as i128
    }
}

impl Cast<isize> for usize {
    open spec fn cast_spec(self) -> isize {
        self as isize
    }

    fn cast(self) -> isize {
        #[verifier::truncate] (self as isize)
    }
}

impl Cast<u8> for i8 {
    open spec fn cast_spec(self) -> u8 {
        self as u8
    }

    fn cast(self) -> u8 {
        #[verifier::truncate] (self as u8)
    }
}

impl Cast<u16> for i8 {
    open spec fn cast_spec(self) -> u16 {
        self as u16
    }

    fn cast(self) -> u16 {
        #[verifier::truncate] (self as u16)
    }
}

impl Cast<u32> for i8 {
    open spec fn cast_spec(self) -> u32 {
        self as u32
    }

    fn cast(self) -> u32 {
        #[verifier::truncate] (self as u32)
    }
}

impl Cast<u64> for i8 {
    open spec fn cast_spec(self) -> u64 {
        self as u64
    }

    fn cast(self) -> u64 {
        #[verifier::truncate] (self as u64)
    }
}

impl Cast<u128> for i8 {
    open spec fn cast_spec(self) -> u128 {
        self as u128
    }

    fn cast(self) -> u128 {
        #[verifier::truncate] (self as u128)
    }
}

impl Cast<usize> for i8 {
    open spec fn cast_spec(self) -> usize {
        self as usize
    }

    fn cast(self) -> usize {
        #[verifier::truncate] (self as usize)
    }
}

impl Cast<i8> for i8 {
    open spec fn cast_spec(self) -> i8 {
        self as i8
    }

    fn cast(self) -> i8 {
        self as i8
    }
}

impl Cast<i16> for i8 {
    open spec fn cast_spec(self) -> i16 {
        self as i16
    }

    fn cast(self) -> i16 {
        self as i16
    }
}

impl Cast<i32> for i8 {
    open spec fn cast_spec(self) -> i32 {
        self as i32
    }

    fn cast(self) -> i32 {
        self as i32
    }
}

impl Cast<i64> for i8 {
    open spec fn cast_spec(self) -> i64 {
        self as i64
    }

    fn cast(self) -> i64 {
        self as i64
    }
}

impl Cast<i128> for i8 {
    open spec fn cast_spec(self) -> i128 {
        self as i128
    }

    fn cast(self) -> i128 {
        self as i128
    }
}

impl Cast<isize> for i8 {
    open spec fn cast_spec(self) -> isize {
        self as isize
    }

    fn cast(self) -> isize {
        self as isize
    }
}

impl Cast<u8> for i16 {
    open spec fn cast_spec(self) -> u8 {
        self as u8
    }

    fn cast(self) -> u8 {
        #[verifier::truncate] (self as u8)
    }
}

impl Cast<u16> for i16 {
    open spec fn cast_spec(self) -> u16 {
        self as u16
    }

    fn cast(self) -> u16 {
        #[verifier::truncate] (self as u16)
    }
}

impl Cast<u32> for i16 {
    open spec fn cast_spec(self) -> u32 {
        self as u32
    }

    fn cast(self) -> u32 {
        #[verifier::truncate] (self as u32)
    }
}

impl Cast<u64> for i16 {
    open spec fn cast_spec(self) -> u64 {
        self as u64
    }

    fn cast(self) -> u64 {
        #[verifier::truncate] (self as u64)
    }
}

impl Cast<u128> for i16 {
    open spec fn cast_spec(self) -> u128 {
        self as u128
    }

    fn cast(self) -> u128 {
        #[verifier::truncate] (self as u128)
    }
}

impl Cast<usize> for i16 {
    open spec fn cast_spec(self) -> usize {
        self as usize
    }

    fn cast(self) -> usize {
        #[verifier::truncate] (self as usize)
    }
}

impl Cast<i8> for i16 {
    open spec fn cast_spec(self) -> i8 {
        self as i8
    }

    fn cast(self) -> i8 {
        #[verifier::truncate] (self as i8)
    }
}

impl Cast<i16> for i16 {
    open spec fn cast_spec(self) -> i16 {
        self as i16
    }

    fn cast(self) -> i16 {
        self as i16
    }
}

impl Cast<i32> for i16 {
    open spec fn cast_spec(self) -> i32 {
        self as i32
    }

    fn cast(self) -> i32 {
        self as i32
    }
}

impl Cast<i64> for i16 {
    open spec fn cast_spec(self) -> i64 {
        self as i64
    }

    fn cast(self) -> i64 {
        self as i64
    }
}

impl Cast<i128> for i16 {
    open spec fn cast_spec(self) -> i128 {
        self as i128
    }

    fn cast(self) -> i128 {
        self as i128
    }
}

impl Cast<isize> for i16 {
    open spec fn cast_spec(self) -> isize {
        self as isize
    }

    fn cast(self) -> isize {
        self as isize
    }
}

impl Cast<u8> for i32 {
    open spec fn cast_spec(self) -> u8 {
        self as u8
    }

    fn cast(self) -> u8 {
        #[verifier::truncate] (self as u8)
    }
}

impl Cast<u16> for i32 {
    open spec fn cast_spec(self) -> u16 {
        self as u16
    }

    fn cast(self) -> u16 {
        #[verifier::truncate] (self as u16)
    }
}

impl Cast<u32> for i32 {
    open spec fn cast_spec(self) -> u32 {
        self as u32
    }

    fn cast(self) -> u32 {
        #[verifier::truncate] (self as u32)
    }
}

impl Cast<u64> for i32 {
    open spec fn cast_spec(self) -> u64 {
        self as u64
    }

    fn cast(self) -> u64 {
        #[verifier::truncate] (self as u64)
    }
}

impl Cast<u128> for i32 {
    open spec fn cast_spec(self) -> u128 {
        self as u128
    }

    fn cast(self) -> u128 {
        #[verifier::truncate] (self as u128)
    }
}

impl Cast<usize> for i32 {
    open spec fn cast_spec(self) -> usize {
        self as usize
    }

    fn cast(self) -> usize {
        #[verifier::truncate] (self as usize)
    }
}

impl Cast<i8> for i32 {
    open spec fn cast_spec(self) -> i8 {
        self as i8
    }

    fn cast(self) -> i8 {
        #[verifier::truncate] (self as i8)
    }
}

impl Cast<i16> for i32 {
    open spec fn cast_spec(self) -> i16 {
        self as i16
    }

    fn cast(self) -> i16 {
        #[verifier::truncate] (self as i16)
    }
}

impl Cast<i32> for i32 {
    open spec fn cast_spec(self) -> i32 {
        self as i32
    }

    fn cast(self) -> i32 {
        self as i32
    }
}

impl Cast<i64> for i32 {
    open spec fn cast_spec(self) -> i64 {
        self as i64
    }

    fn cast(self) -> i64 {
        self as i64
    }
}

impl Cast<i128> for i32 {
    open spec fn cast_spec(self) -> i128 {
        self as i128
    }

    fn cast(self) -> i128 {
        self as i128
    }
}

impl Cast<isize> for i32 {
    open spec fn cast_spec(self) -> isize {
        self as isize
    }

    fn cast(self) -> isize {
        self as isize
    }
}

impl Cast<u8> for i64 {
    open spec fn cast_spec(self) -> u8 {
        self as u8
    }

    fn cast(self) -> u8 {
        #[verifier::truncate] (self as u8)
    }
}

impl Cast<u16> for i64 {
    open spec fn cast_spec(self) -> u16 {
        self as u16
    }

    fn cast(self) -> u16 {
        #[verifier::truncate] (self as u16)
    }
}

impl Cast<u32> for i64 {
    open spec fn cast_spec(self) -> u32 {
        self as u32
    }

    fn cast(self) -> u32 {
        #[verifier::truncate] (self as u32)
    }
}

impl Cast<u64> for i64 {
    open spec fn cast_spec(self) -> u64 {
        self as u64
    }

    fn cast(self) -> u64 {
        #[verifier::truncate] (self as u64)
    }
}

impl Cast<u128> for i64 {
    open spec fn cast_spec(self) -> u128 {
        self as u128
    }

    fn cast(self) -> u128 {
        #[verifier::truncate] (self as u128)
    }
}

impl Cast<usize> for i64 {
    open spec fn cast_spec(self) -> usize {
        self as usize
    }

    fn cast(self) -> usize {
        #[verifier::truncate] (self as usize)
    }
}

impl Cast<i8> for i64 {
    open spec fn cast_spec(self) -> i8 {
        self as i8
    }

    fn cast(self) -> i8 {
        #[verifier::truncate] (self as i8)
    }
}

impl Cast<i16> for i64 {
    open spec fn cast_spec(self) -> i16 {
        self as i16
    }

    fn cast(self) -> i16 {
        #[verifier::truncate] (self as i16)
    }
}

impl Cast<i32> for i64 {
    open spec fn cast_spec(self) -> i32 {
        self as i32
    }

    fn cast(self) -> i32 {
        #[verifier::truncate] (self as i32)
    }
}

impl Cast<i64> for i64 {
    open spec fn cast_spec(self) -> i64 {
        self as i64
    }

    fn cast(self) -> i64 {
        self as i64
    }
}

impl Cast<i128> for i64 {
    open spec fn cast_spec(self) -> i128 {
        self as i128
    }

    fn cast(self) -> i128 {
        self as i128
    }
}

impl Cast<isize> for i64 {
    open spec fn cast_spec(self) -> isize {
        self as isize
    }

    fn cast(self) -> isize {
        #[verifier::truncate] (self as isize)
    }
}

impl Cast<u8> for i128 {
    open spec fn cast_spec(self) -> u8 {
        self as u8
    }

    fn cast(self) -> u8 {
        #[verifier::truncate] (self as u8)
    }
}

impl Cast<u16> for i128 {
    open spec fn cast_spec(self) -> u16 {
        self as u16
    }

    fn cast(self) -> u16 {
        #[verifier::truncate] (self as u16)
    }
}

impl Cast<u32> for i128 {
    open spec fn cast_spec(self) -> u32 {
        self as u32
    }

    fn cast(self) -> u32 {
        #[verifier::truncate] (self as u32)
    }
}

impl Cast<u64> for i128 {
    open spec fn cast_spec(self) -> u64 {
        self as u64
    }

    fn cast(self) -> u64 {
        #[verifier::truncate] (self as u64)
    }
}

impl Cast<u128> for i128 {
    open spec fn cast_spec(self) -> u128 {
        self as u128
    }

    fn cast(self) -> u128 {
        #[verifier::truncate] (self as u128)
    }
}

impl Cast<usize> for i128 {
    open spec fn cast_spec(self) -> usize {
        self as usize
    }

    fn cast(self) -> usize {
        #[verifier::truncate] (self as usize)
    }
}

impl Cast<i8> for i128 {
    open spec fn cast_spec(self) -> i8 {
        self as i8
    }

    fn cast(self) -> i8 {
        #[verifier::truncate] (self as i8)
    }
}

impl Cast<i16> for i128 {
    open spec fn cast_spec(self) -> i16 {
        self as i16
    }

    fn cast(self) -> i16 {
        #[verifier::truncate] (self as i16)
    }
}

impl Cast<i32> for i128 {
    open spec fn cast_spec(self) -> i32 {
        self as i32
    }

    fn cast(self) -> i32 {
        #[verifier::truncate] (self as i32)
    }
}

impl Cast<i64> for i128 {
    open spec fn cast_spec(self) -> i64 {
        self as i64
    }

    fn cast(self) -> i64 {
        #[verifier::truncate] (self as i64)
    }
}

impl Cast<i128> for i128 {
    open spec fn cast_spec(self) -> i128 {
        self as i128
    }

    fn cast(self) -> i128 {
        self as i128
    }
}

impl Cast<isize> for i128 {
    open spec fn cast_spec(self) -> isize {
        self as isize
    }

    fn cast(self) -> isize {
        #[verifier::truncate] (self as isize)
    }
}

impl Cast<u8> for isize {
    open spec fn cast_spec(self) -> u8 {
        self as u8
    }

    fn cast(self) -> u8 {
        #[verifier::truncate] (self as u8)
    }
}

impl Cast<u16> for isize {
    open spec fn cast_spec(self) -> u16 {
        self as u16
    }

    fn cast(self) -> u16 {
        #[verifier::truncate] (self as u16)
    }
}

impl Cast<u32> for isize {
    open spec fn cast_spec(self) -> u32 {
        self as u32
    }

    fn cast(self) -> u32 {
        #[verifier::truncate] (self as u32)
    }
}

impl Cast<u64> for isize {
    open spec fn cast_spec(self) -> u64 {
        self as u64
    }

    fn cast(self) -> u64 {
        #[verifier::truncate] (self as u64)
    }
}

impl Cast<u128> for isize {
    open spec fn cast_spec(self) -> u128 {
        self as u128
    }

    fn cast(self) -> u128 {
        #[verifier::truncate] (self as u128)
    }
}

impl Cast<usize> for isize {
    open spec fn cast_spec(self) -> usize {
        self as usize
    }

    fn cast(self) -> usize {
        #[verifier::truncate] (self as usize)
    }
}

impl Cast<i8> for isize {
    open spec fn cast_spec(self) -> i8 {
        self as i8
    }

    fn cast(self) -> i8 {
        #[verifier::truncate] (self as i8)
    }
}

impl Cast<i16> for isize {
    open spec fn cast_spec(self) -> i16 {
        self as i16
    }

    fn cast(self) -> i16 {
        #[verifier::truncate] (self as i16)
    }
}

impl Cast<i32> for isize {
    open spec fn cast_spec(self) -> i32 {
        self as i32
    }

    fn cast(self) -> i32 {
        #[verifier::truncate] (self as i32)
    }
}

impl Cast<i64> for isize {
    open spec fn cast_spec(self) -> i64 {
        self as i64
    }

    fn cast(self) -> i64 {
        self as i64
    }
}

impl Cast<i128> for isize {
    open spec fn cast_spec(self) -> i128 {
        self as i128
    }

    fn cast(self) -> i128 {
        self as i128
    }
}

impl Cast<isize> for isize {
    open spec fn cast_spec(self) -> isize {
        self as isize
    }

    fn cast(self) -> isize {
        self as isize
    }
}
} // verus!
