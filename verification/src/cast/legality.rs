//! The cast legality matrix: a verdict for every pair of families.

use vstd::prelude::*;
use crate::types::Family;

verus! {

/// The lowering that a legal pair of families calls for, before any runtime
/// parameter is resolved.
#[derive(Clone, Copy, Debug, PartialEq, Eq, Structural)]
pub enum StrategyKind {
    /// The operand passes through unchanged.
    Identity,
    /// Truncate toward zero.
    TruncateToInteger,
    /// Truncate toward zero; the result is `false` iff that gives zero.
    TruncateThenCompareZero,
    /// Call the angle constructor with the operand and a width in bits.
    ConstructAngle,
    /// Build a complex value with the operand as real part and zero as
    /// imaginary part.
    ConstructComplex,
    /// Convert to a single two-valued result with the runtime's primitive.
    ConvertToBitResult,
}

/// The outcome of the legality check. A cast is legal or it is not; there is
/// no state in between.
#[derive(Clone, Copy, Debug, PartialEq, Eq, Structural)]
pub enum Verdict {
    Legal(StrategyKind),
    Illegal,
}

/// The row of the matrix for a floating-point operand.
pub open spec fn from_float(target: Family) -> Verdict {
    match target {
        Family::Bool => Verdict::Legal(StrategyKind::TruncateThenCompareZero),
        Family::Int => Verdict::Legal(StrategyKind::TruncateToInteger),
        Family::UInt => Verdict::Legal(StrategyKind::TruncateToInteger),
        Family::Float => Verdict::Legal(StrategyKind::Identity),
        Family::Angle => Verdict::Legal(StrategyKind::ConstructAngle),
        Family::Complex => Verdict::Legal(StrategyKind::ConstructComplex),
        Family::Bit => Verdict::Legal(StrategyKind::ConvertToBitResult),
        Family::BitArray => Verdict::Illegal,
        Family::Duration => Verdict::Illegal,
    }
}

/// The matrix. Only the row of floating-point operands has entries of its
/// own; every pair outside that row takes the default, `Illegal`.
pub open spec fn verdict(source: Family, target: Family) -> Verdict {
    if source is Float {
        from_float(target)
    } else {
        Verdict::Illegal
    }
}

/// Looks up the verdict for a cast from `source` to `target`.
///
/// Defined for every pair of families; widths play no part in it.
pub fn legality(source: Family, target: Family) -> (r: Verdict)
    ensures
        r == verdict(source, target),
{
    match source {
        Family::Float => match target {
            Family::Bool => Verdict::Legal(StrategyKind::TruncateThenCompareZero),
            Family::Int | Family::UInt => Verdict::Legal(StrategyKind::TruncateToInteger),
            Family::Float => Verdict::Legal(StrategyKind::Identity),
            Family::Angle => Verdict::Legal(StrategyKind::ConstructAngle),
            Family::Complex => Verdict::Legal(StrategyKind::ConstructComplex),
            Family::Bit => Verdict::Legal(StrategyKind::ConvertToBitResult),
            Family::BitArray | Family::Duration => Verdict::Illegal,
        },
        // No row has been laid down for these operands yet: each is written
        // out so that a new family cannot be added without a decision here.
        Family::Bool => Verdict::Illegal,
        Family::Int => Verdict::Illegal,
        Family::UInt => Verdict::Illegal,
        Family::Angle => Verdict::Illegal,
        Family::Complex => Verdict::Illegal,
        Family::Bit => Verdict::Illegal,
        Family::BitArray => Verdict::Illegal,
        Family::Duration => Verdict::Illegal,
    }
}

} // verus!
