//! Branchless selection and filtering over the primitive integer widths.
//!
//! The engine computes `if predicate { right } else { left }` and
//! `if transparent { value } else { 0 }` purely with bitwise arithmetic:
//! a boolean condition becomes an all-ones or all-zero mask, which is then
//! combined with the operands by XOR and AND. The operands are combined
//! purely through that mask arithmetic, never chosen by a data-dependent
//! branch, which is what makes the approach usable in timing-sensitive
//! code.

use vstd::prelude::*;

mod filter;
pub mod primitive;
mod sealed;

pub use filter::Filter;

use primitive::cast::Cast;
use primitive::Primitive;

verus! {

/// The value a selection yields: the right operand when the dependence
/// holds, else the left operand carried into the target width.
pub open spec fn select_spec<S: Cast<T>, T>(
    target_left: S,
    target_right: T,
    target_dependence: bool,
) -> T {
    if target_dependence {
        target_right
    } else {
        target_left.cast_spec()
    }
}

/// The value a filter yields: the operand carried into the target width
/// when the filter is transparent, else the numeric zero of that width.
pub open spec fn filter_spec<S: Cast<T>, T: Primitive>(
    target_left: S,
    target_dependence: Filter,
) -> T {
    match target_dependence {
        Filter::Transparent => target_left.cast_spec(),
        Filter::Opaque => T::zero_spec(),
    }
}

/// Constant-accelerated trait for various operations commonly found in
/// branchless programming.
pub trait Linearity: Primitive {
    /// Performs a selection operation between `self` and `target_right`
    /// based on the value of `target_dependence`.
    ///
    /// The result is `target_right` when `target_dependence` holds and
    /// `self` (cast into the target width) when it does not, computed
    /// without a data-dependent choice between the operands: the dependence
    /// becomes an all-ones or all-zero mask, and the mask picks the XOR
    /// difference of the operands apart.
    fn select<T>(self, target_right: T, target_dependence: bool) -> (r: T)
        where
            T: Primitive + Cast<T>,
            Self: Cast<T>,
            i8: Cast<T>,
        ensures
            r == select_spec(self, target_right, target_dependence),
    {
        let select_mask: T = Filter::condition(target_dependence);
        let target_left: T = self.cast();

        let target_operand = target_left.xor(target_right);

        proof {
            T::lemma_bit_laws(target_left, target_right);
            T::lemma_bit_laws(target_operand, target_right);
        }

        target_left.xor(target_operand.and(select_mask))
    }

    /// Performs a filter operation between `self` and `target_dependence`.
    ///
    /// The result is `self` (cast into the target width) when the filter is
    /// transparent, and the numeric zero of the target width when it is
    /// opaque, computed by masking rather than by a branch.
    fn filter<T>(self, target_dependence: Filter) -> (r: T)
        where
            T: Primitive + Cast<T>,
            Self: Cast<T>,
            i8: Cast<T>,
        ensures
            r == filter_spec(self, target_dependence),
    {
        let select_mask: T = target_dependence.mask();
        let target_operand: T = self.cast();

        proof {
            T::lemma_bit_laws(target_operand, target_operand);
        }

        target_operand.and(select_mask)
    }
}

impl<T> Linearity for T where T: Primitive {
}

/// Law: a selection between two operands of one width follows the
/// dependence exactly — the result is the right operand when the dependence
/// holds and the left operand when it does not.
pub proof fn lemma_select_correct<T: Primitive + Cast<T>>(
    target_left: T,
    target_right: T,
    target_dependence: bool,
)
    ensures
        select_spec(target_left, target_right, target_dependence) == (if target_dependence {
            target_right
        } else {
            target_left
        }),
{
    T::lemma_bit_laws(target_left, target_right);
}

/// Law: a selection between equal operands yields that operand for either
/// value of the dependence.
pub proof fn lemma_select_idempotent<T: Primitive + Cast<T>>(
    target_operand: T,
    target_dependence: bool,
)
    ensures
        select_spec(target_operand, target_operand, target_dependence) == target_operand,
{
    T::lemma_bit_laws(target_operand, target_operand);
}

/// Law: the filter truth table. A filter built from `true` is transparent
/// and passes any value of any width through unchanged; a filter built from
/// `false` is opaque and yields the numeric zero of the width.
pub proof fn lemma_filter_truth_table<T: Primitive + Cast<T>>(target_operand: T)
    ensures
        filter_spec::<T, T>(target_operand, Filter::new_spec(true)) == target_operand,
        filter_spec::<T, T>(target_operand, Filter::new_spec(false)) == T::zero_spec(),
{
    T::lemma_bit_laws(target_operand, target_operand);
}

} // verus!
