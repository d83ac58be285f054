//! Abstraction over all primitive types.

use vstd::prelude::*;

use crate::sealed::Sealed;
use cast::Cast;
use op::Operate;

pub mod cast;
pub mod op;

verus! {

/// Marker trait for signed types.
pub trait Signed: Sealed {
}

/// Marker trait for unsigned types.
pub trait Unsigned: Sealed {
}

/// Primitive trait for all primitive types.
///
/// A member of the family carries its width metadata, its same-width
/// signed and unsigned counterparts, and proofs of the bit-level identities
/// that the selection and filtering algorithms rest on.
pub trait Primitive: Operate + Sealed {
    /// The signed version of the primitive type.
    type Signed: Operate + Cast<Self>;

    /// The unsigned version of the primitive type.
    type Unsigned: Operate + Cast<Self>;

    /// Whether this numeric primitive is signed or not.
    spec fn signed_spec() -> bool;

    /// The number of bits in the primitive type.
    spec fn bits_spec() -> u32;

    /// The minimum value of the primitive type.
    spec fn min_spec() -> Self;

    /// The maximum value of the primitive type.
    spec fn max_spec() -> Self;

    /// The all-zero bit pattern of the type: its numeric zero.
    spec fn zero_spec() -> Self;

    /// The all-ones bit pattern of the type.
    spec fn ones_spec() -> Self;

    /// Returns whether the type is signed.
    fn signed() -> (r: bool)
        ensures
            r == Self::signed_spec(),
    ;

    /// Returns the number of bits in the type.
    fn bits() -> (r: u32)
        ensures
            r == Self::bits_spec(),
    ;

    /// Returns the minimum value of the type.
    fn min() -> (r: Self)
        ensures
            r == Self::min_spec(),
    ;

    /// Returns the maximum value of the type.
    fn max() -> (r: Self)
        ensures
            r == Self::max_spec(),
    ;

    /// Casting the two mask bytes into the type preserves their shape:
    /// the zero byte becomes the all-zero pattern and the minus-one byte
    /// sign-extends to the all-ones pattern.
    proof fn lemma_mask_casts() where i8: Cast<Self>
        ensures
            <i8 as Cast<Self>>::cast_spec(0i8) == Self::zero_spec(),
            <i8 as Cast<Self>>::cast_spec(-1i8) == Self::ones_spec(),
    ;

    /// The bit-level identities behind branchless selection: XOR by zero and
    /// AND by all-ones keep a value, AND by zero clears it, XOR cancels
    /// itself, and the cast of a value into its own type is that value.
    proof fn lemma_bit_laws(x: Self, y: Self) where Self: Cast<Self>
        ensures
            x.xor_spec(Self::zero_spec()) == x,
            x.and_spec(Self::zero_spec()) == Self::zero_spec(),
            x.and_spec(Self::ones_spec()) == x,
            x.xor_spec(x.xor_spec(y)) == y,
            <Self as Cast<Self>>::cast_spec(x) == x,
    ;
}

impl Unsigned for u8 {
}

impl Unsigned for u16 {
}

impl Unsigned for u32 {
}

impl Unsigned for u64 {
}

impl Unsigned for u128 {
}

impl Unsigned for usize {
}

impl Signed for i8 {
}

impl Signed for i16 {
}

impl Signed for i32 {
}

impl Signed for i64 {
}

impl Signed for i128 {
}

impl Signed for isize {
}

impl Primitive for u8 {
    type Signed = i8;

    type Unsigned = u8;

    open spec fn signed_spec() -> bool {
        false
    }

    open spec fn bits_spec() -> u32 {
        8
    }

    open spec fn min_spec() -> u8 {
        u8::MIN
    }

    open spec fn max_spec() -> u8 {
        u8::MAX
    }

    open spec fn zero_spec() -> u8 {
        0u8
    }

    open spec fn ones_spec() -> u8 {
        !0u8
    }

    fn signed() -> bool {
        false
    }

    fn bits() -> u32 {
        8
    }

    fn min() -> u8 {
        u8::MIN
    }

    fn max() -> u8 {
        u8::MAX
    }

    proof fn lemma_mask_casts() {
        assert(0i8 as u8 == 0u8 && -1i8 as u8 == !0u8) by (bit_vector);
    }

    proof fn lemma_bit_laws(x: u8, y: u8) {
        assert((x ^ 0u8) == x && (x & 0u8) == 0u8 && (x & !0u8) == x && (x ^ (x ^ y)) == y)
            by (bit_vector);
    }
}

impl Primitive for u16 {
    type Signed = i16;

    type Unsigned = u16;

    open spec fn signed_spec() -> bool {
        false
    }

    open spec fn bits_spec() -> u32 {
        16
    }

    open spec fn min_spec() -> u16 {
        u16::MIN
    }

    open spec fn max_spec() -> u16 {
        u16::MAX
    }

    open spec fn zero_spec() -> u16 {
        0u16
    }

    open spec fn ones_spec() -> u16 {
        !0u16
    }

    fn signed() -> bool {
        false
    }

    fn bits() -> u32 {
        16
    }

    fn min() -> u16 {
        u16::MIN
    }

    fn max() -> u16 {
        u16::MAX
    }

    proof fn lemma_mask_casts() {
        assert(0i8 as u16 == 0u16 && -1i8 as u16 == !0u16) by (bit_vector);
    }

    proof fn lemma_bit_laws(x: u16, y: u16) {
        assert((x ^ 0u16) == x && (x & 0u16) == 0u16 && (x & !0u16) == x && (x ^ (x ^ y)) == y)
            by (bit_vector);
    }
}

impl Primitive for u32 {
    type Signed = i32;

    type Unsigned = u32;

    open spec fn signed_spec() -> bool {
        false
    }

    open spec fn bits_spec() -> u32 {
        32
    }

    open spec fn min_spec() -> u32 {
        u32::MIN
    }

    open spec fn max_spec() -> u32 {
        u32::MAX
    }

    open spec fn zero_spec() -> u32 {
        0u32
    }

    open spec fn ones_spec() -> u32 {
        !0u32
    }

    fn signed() -> bool {
        false
    }

    fn bits() -> u32 {
        32
    }

    fn min() -> u32 {
        u32::MIN
    }

    fn max() -> u32 {
        u32::MAX
    }

    proof fn lemma_mask_casts() {
        assert(0i8 as u32 == 0u32 && -1i8 as u32 == !0u32) by (bit_vector);
    }

    proof fn lemma_bit_laws(x: u32, y: u32) {
        assert((x ^ 0u32) == x && (x & 0u32) == 0u32 && (x & !0u32) == x && (x ^ (x ^ y)) == y)
            by (bit_vector);
    }
}

impl Primitive for u64 {
    type Signed = i64;

    type Unsigned = u64;

    open spec fn signed_spec() -> bool {
        false
    }

    open spec fn bits_spec() -> u32 {
        64
    }

    open spec fn min_spec() -> u64 {
        u64::MIN
    }

    open spec fn max_spec() -> u64 {
        u64::MAX
    }

    open spec fn zero_spec() -> u64 {
        0u64
    }

    open spec fn ones_spec() -> u64 {
        !0u64
    }

    fn signed() -> bool {
        false
    }

    fn bits() -> u32 {
        64
    }

    fn min() -> u64 {
        u64::MIN
    }

    fn max() -> u64 {
        u64::MAX
    }

    proof fn lemma_mask_casts() {
        assert(0i8 as u64 == 0u64 && -1i8 as u64 == !0u64) by (bit_vector);
    }

    proof fn lemma_bit_laws(x: u64, y: u64) {
        assert((x ^ 0u64) == x && (x & 0u64) == 0u64 && (x & !0u64) == x && (x ^ (x ^ y)) == y)
            by (bit_vector);
    }
}

impl Primitive for u128 {
    type Signed = i128;

    type Unsigned = u128;

    open spec fn signed_spec() -> bool {
        false
    }

    open spec fn bits_spec() -> u32 {
        128
    }

    open spec fn min_spec() -> u128 {
        u128::MIN
    }

    open spec fn max_spec() -> u128 {
        u128::MAX
    }

    open spec fn zero_spec() -> u128 {
        0u128
    }

    open spec fn ones_spec() -> u128 {
        !0u128
    }

    fn signed() -> bool {
        false
    }

    fn bits() -> u32 {
        128
    }

    fn min() -> u128 {
        u128::MIN
    }

    fn max() -> u128 {
        u128::MAX
    }

    proof fn lemma_mask_casts() {
        assert(0i8 as u128 == 0u128 && -1i8 as u128 == !0u128) by (bit_vector);
    }

    proof fn lemma_bit_laws(x: u128, y: u128) {
        assert((x ^ 0u128) == x && (x & 0u128) == 0u128 && (x & !0u128) == x && (x ^ (x ^ y)) == y)
            by (bit_vector);
    }
}

impl Primitive for usize {
    type Signed = isize;

    type Unsigned = usize;

    open spec fn signed_spec() -> bool {
        false
    }

    open spec fn bits_spec() -> u32 {
        usize::BITS
    }

    open spec fn min_spec() -> usize {
        usize::MIN
    }

    open spec fn max_spec() -> usize {
        usize::MAX
    }

    open spec fn zero_spec() -> usize {
        0usize
    }

    open spec fn ones_spec() -> usize {
        !0usize
    }

    fn signed() -> bool {
        false
    }

    fn bits() -> u32 {
        usize::BITS
    }

    fn min() -> usize {
        usize::MIN
    }

    fn max() -> usize {
        usize::MAX
    }

    proof fn lemma_mask_casts() {
        assert(0i8 as usize == 0usize && -1i8 as usize == !0usize) by (bit_vector);
    }

    proof fn lemma_bit_laws(x: usize, y: usize) {
        assert((x ^ 0usize) == x && (x & 0usize) == 0usize && (x & !0usize) == x && (x ^ (x ^ y)) == y)
            by (bit_vector);
    }
}

impl Primitive for i8 {
    type Signed = i8;

    type Unsigned = u8;

    open spec fn signed_spec() -> bool {
        true
    }

    open spec fn bits_spec() -> u32 {
        8
    }

    open spec fn min_spec() -> i8 {
        i8::MIN
    }

    open spec fn max_spec() -> i8 {
        i8::MAX
    }

    open spec fn zero_spec() -> i8 {
        0i8
    }

    open spec fn ones_spec() -> i8 {
        !0i8
    }

    fn signed() -> bool {
        true
    }

    fn bits() -> u32 {
        8
    }

    fn min() -> i8 {
        i8::MIN
    }

    fn max() -> i8 {
        i8::MAX
    }

    proof fn lemma_mask_casts() {
        assert(0i8 as i8 == 0i8 && -1i8 as i8 == !0i8) by (bit_vector);
    }

    proof fn lemma_bit_laws(x: i8, y: i8) {
        assert((x ^ 0i8) == x && (x & 0i8) == 0i8 && (x & !0i8) == x && (x ^ (x ^ y)) == y)
            by (bit_vector);
    }
}

impl Primitive for i16 {
    type Signed = i16;

    type Unsigned = u16;

    open spec fn signed_spec() -> bool {
        true
    }

    open spec fn bits_spec() -> u32 {
        16
    }

    open spec fn min_spec() -> i16 {
        i16::MIN
    }

    open spec fn max_spec() -> i16 {
        i16::MAX
    }

    open spec fn zero_spec() -> i16 {
        0i16
    }

    open spec fn ones_spec() -> i16 {
        !0i16
    }

    fn signed() -> bool {
        true
    }

    fn bits() -> u32 {
        16
    }

    fn min() -> i16 {
        i16::MIN
    }

    fn max() -> i16 {
        i16::MAX
    }

    proof fn lemma_mask_casts() {
        assert(0i8 as i16 == 0i16 && -1i8 as i16 == !0i16) by (bit_vector);
    }

    proof fn lemma_bit_laws(x: i16, y: i16) {
        assert((x ^ 0i16) == x && (x & 0i16) == 0i16 && (x & !0i16) == x && (x ^ (x ^ y)) == y)
            by (bit_vector);
    }
}

impl Primitive for i32 {
    type Signed = i32;

    type Unsigned = u32;

    open spec fn signed_spec() -> bool {
        true
    }

    open spec fn bits_spec() -> u32 {
        32
    }

    open spec fn min_spec() -> i32 {
        i32::MIN
    }

    open spec fn max_spec() -> i32 {
        i32::MAX
    }

    open spec fn zero_spec() -> i32 {
        0i32
    }

    open spec fn ones_spec() -> i32 {
        !0i32
    }

    fn signed() -> bool {
        true
    }

    fn bits() -> u32 {
        32
    }

    fn min() -> i32 {
        i32::MIN
    }

    fn max() -> i32 {
        i32::MAX
    }

    proof fn lemma_mask_casts() {
        assert(0i8 as i32 == 0i32 && -1i8 as i32 == !0i32) by (bit_vector);
    }

    proof fn lemma_bit_laws(x: i32, y: i32) {
        assert((x ^ 0i32) == x && (x & 0i32) == 0i32 && (x & !0i32) == x && (x ^ (x ^ y)) == y)
            by (bit_vector);
    }
}

impl Primitive for i64 {
    type Signed = i64;

    type Unsigned = u64;

    open spec fn signed_spec() -> bool {
        true
    }

    open spec fn bits_spec() -> u32 {
        64
    }

    open spec fn min_spec() -> i64 {
        i64::MIN
    }

    open spec fn max_spec() -> i64 {
        i64::MAX
    }

    open spec fn zero_spec() -> i64 {
        0i64
    }

    open spec fn ones_spec() -> i64 {
        !0i64
    }

    fn signed() -> bool {
        true
    }

    fn bits() -> u32 {
        64
    }

    fn min() -> i64 {
        i64::MIN
    }

    fn max() -> i64 {
        i64::MAX
    }

    proof fn lemma_mask_casts() {
        assert(0i8 as i64 == 0i64 && -1i8 as i64 == !0i64) by (bit_vector);
    }

    proof fn lemma_bit_laws(x: i64, y: i64) {
        assert((x ^ 0i64) == x && (x & 0i64) == 0i64 && (x & !0i64) == x && (x ^ (x ^ y)) == y)
            by (bit_vector);
    }
}

impl Primitive for i128 {
    type Signed = i128;

    type Unsigned = u128;

    open spec fn signed_spec() -> bool {
        true
    }

    open spec fn bits_spec() -> u32 {
        128
    }

    open spec fn min_spec() -> i128 {
        i128::MIN
    }

    open spec fn max_spec() -> i128 {
        i128::MAX
    }

    open spec fn zero_spec() -> i128 {
        0i128
    }

    open spec fn ones_spec() -> i128 {
        !0i128
    }

    fn signed() -> bool {
        true
    }

    fn bits() -> u32 {
        128
    }

    fn min() -> i128 {
        i128::MIN
    }

    fn max() -> i128 {
        i128::MAX
    }

    proof fn lemma_mask_casts() {
        assert(0i8 as i128 == 0i128 && -1i8 as i128 == !0i128) by (bit_vector);
    }

    proof fn lemma_bit_laws(x: i128, y: i128) {
        assert((x ^ 0i128) == x && (x & 0i128) == 0i128 && (x & !0i128) == x && (x ^ (x ^ y)) == y)
            by (bit_vector);
    }
}

impl Primitive for isize {
    type Signed = isize;

    type Unsigned = usize;

    open spec fn signed_spec() -> bool {
        true
    }

    open spec fn bits_spec() -> u32 {
        isize::BITS
    }

    open spec fn min_spec() -> isize {
        isize::MIN
    }

    open spec fn max_spec() -> isize {
        isize::MAX
    }

    open spec fn zero_spec() -> isize {
        0isize
    }

    open spec fn ones_spec() -> isize {
        !0isize
    }

    fn signed() -> bool {
        true
    }

    fn bits() -> u32 {
        isize::BITS
    }

    fn min() -> isize {
        isize::MIN
    }

    fn max() -> isize {
        isize::MAX
    }

    proof fn lemma_mask_casts() {
        assert(0i8 as isize == 0isize && -1i8 as isize == !0isize) by (bit_vector);
    }

    proof fn lemma_bit_laws(x: isize, y: isize) {
        assert((x ^ 0isize) == x && (x & 0isize) == 0isize && (x & !0isize) == x && (x ^ (x ^ y)) == y)
            by (bit_vector);
    }
}
} // verus!
