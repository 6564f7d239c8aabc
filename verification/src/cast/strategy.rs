//! Strategies: what a legal cast does, runtime parameters included.

use vstd::prelude::*;
use crate::cast::legality::{legality, verdict, StrategyKind, Verdict};
use crate::cast::width::{resolve_width, resolved_width};
use crate::types::Type;

verus! {

/// The lowering of a legal cast.
///
/// Only the angle constructor takes a width at run time. For every other
/// strategy the widths of the two types are static annotations that the
/// lowering does not read.
#[derive(Clone, Copy, Debug, PartialEq, Eq, Structural)]
pub enum Strategy {
    /// The operand passes through unchanged.
    Identity,
    /// Truncate toward zero.
    TruncateToInteger,
    /// Truncate toward zero; the result is `false` iff that gives zero.
    TruncateThenCompareZero,
    /// Call the angle constructor with the operand and this many bits.
    ConstructAngle(u32),
    /// Build a complex value with the operand as real part and zero as
    /// imaginary part.
    ConstructComplex,
    /// Convert to a single two-valued result with the runtime's primitive.
    ConvertToBitResult,
}

impl Strategy {
    /// The kind of this strategy, without its parameters.
    pub open spec fn kind(self) -> StrategyKind {
        match self {
            Strategy::Identity => StrategyKind::Identity,
            Strategy::TruncateToInteger => StrategyKind::TruncateToInteger,
            Strategy::TruncateThenCompareZero => StrategyKind::TruncateThenCompareZero,
            Strategy::ConstructAngle(_) => StrategyKind::ConstructAngle,
            Strategy::ConstructComplex => StrategyKind::ConstructComplex,
            Strategy::ConvertToBitResult => StrategyKind::ConvertToBitResult,
        }
    }
}

/// A strategy kind with its runtime parameters taken from the target type.
/// The angle constructor's width is the resolved width of the target; a
/// target without one cannot be constructed as an angle.
pub open spec fn resolved(kind: StrategyKind, target: Type) -> Option<Strategy> {
    match kind {
        StrategyKind::Identity => Some(Strategy::Identity),
        StrategyKind::TruncateToInteger => Some(Strategy::TruncateToInteger),
        StrategyKind::TruncateThenCompareZero => Some(Strategy::TruncateThenCompareZero),
        StrategyKind::ConstructAngle => match resolved_width(target) {
            Some(width_bits) => Some(Strategy::ConstructAngle(width_bits)),
            None => None,
        },
        StrategyKind::ConstructComplex => Some(Strategy::ConstructComplex),
        StrategyKind::ConvertToBitResult => Some(Strategy::ConvertToBitResult),
    }
}

/// The strategy of the cast from `source` to `target`, or `None` where the
/// cast is illegal.
pub open spec fn strategy_of(source: Type, target: Type) -> Option<Strategy> {
    match verdict(source.family(), target.family()) {
        Verdict::Legal(kind) => resolved(kind, target),
        Verdict::Illegal => None,
    }
}

/// Chooses the strategy of the cast from `source` to `target`.
///
/// The result is `None` exactly when the matrix rules the pair of families
/// illegal; otherwise it is the strategy of the verdict, and an angle
/// constructor carries the resolved width of `target`.
pub fn strategy(source: &Type, target: &Type) -> (r: Option<Strategy>)
    ensures
        r == strategy_of(*source, *target),
        r is None <==> verdict(source.family(), target.family()) is Illegal,
        r matches Some(s) ==> verdict(source.family(), target.family()) == Verdict::Legal(
            s.kind(),
        ),
{
    match legality(source.family(), target.family()) {
        Verdict::Illegal => None,
        Verdict::Legal(kind) => match kind {
            StrategyKind::Identity => Some(Strategy::Identity),
            StrategyKind::TruncateToInteger => Some(Strategy::TruncateToInteger),
            StrategyKind::TruncateThenCompareZero => Some(Strategy::TruncateThenCompareZero),
            StrategyKind::ConstructAngle => match resolve_width(target) {
                Some(width_bits) => Some(Strategy::ConstructAngle(width_bits)),
                None => None,
            },
            StrategyKind::ConstructComplex => Some(Strategy::ConstructComplex),
            StrategyKind::ConvertToBitResult => Some(Strategy::ConvertToBitResult),
        },
    }
}

} // verus!
