//! See [`Filter`] for more information.

use vstd::prelude::*;

use crate::primitive::cast::Cast;
use crate::primitive::Primitive;

verus! {

/// A two-state selector that turns a boolean condition into a bitmask.
///
/// `Transparent` lets a filtered value through unchanged; `Opaque` zeroes
/// it out. The mask each state produces is fixed by the wrapping-subtraction
/// formula in [`Filter::mask`]: `Transparent` yields the all-ones mask and
/// `Opaque` yields the all-zero mask.
#[derive(Debug, Clone, Copy, PartialEq, Eq, Structural)]
pub enum Filter {
    /// Allows values through.
    Transparent,
    /// Does not allow values through.
    Opaque,
}

impl Filter {
    /// The filter that a boolean condition selects: `true` is transparent,
    /// `false` is opaque.
    pub open spec fn new_spec(target_cond: bool) -> Filter {
        if target_cond {
            Filter::Transparent
        } else {
            Filter::Opaque
        }
    }

    /// Creates a new `Filter` instance based on the target condition.
    pub fn new(target_cond: bool) -> (r: Self)
        ensures
            r == Filter::new_spec(target_cond),
    {
        match target_cond {
            true => Self::Transparent,
            false => Self::Opaque,
        }
    }

    /// The mask a filter state denotes: all-ones for `Transparent`,
    /// all-zero for `Opaque`.
    pub open spec fn mask_spec<T: Primitive>(self) -> T {
        match self {
            Filter::Transparent => T::ones_spec(),
            Filter::Opaque => T::zero_spec(),
        }
    }

    /// The mask that a boolean condition derives: all-ones for `true`,
    /// all-zero for `false`.
    pub open spec fn condition_spec<T: Primitive>(target_cond: bool) -> T {
        Filter::new_spec(target_cond).mask_spec()
    }

    /// Returns the condition as a generic type `T`.
    pub fn condition<T>(target_cond: bool) -> (r: T) where T: Primitive, i8: Cast<T>,
        ensures
            r == Filter::condition_spec::<T>(target_cond),
    {
        Self::new(target_cond).mask()
    }

    /// Returns the mask value as a generic type `T`.
    ///
    /// The mask comes from arithmetic on the one-byte discriminant
    /// (`Transparent` is `0`, `Opaque` is `1`) rather than from a choice
    /// between two constants: the byte is decremented with wraparound, so
    /// that `0` wraps to the all-ones byte `-1` while `1` drops to the
    /// all-zero byte, and the byte is then sign-extended into the target
    /// width.
    pub fn mask<T>(self) -> (r: T) where T: Primitive, i8: Cast<T>,
        ensures
            r == self.mask_spec::<T>(),
    {
        let target_mask: i8 = match self {
            Self::Transparent => 0,
            Self::Opaque => 1,
        };
        proof {
            T::lemma_mask_casts();
        }
        target_mask.wrapping_sub(1).cast()
    }
}

} // verus!
