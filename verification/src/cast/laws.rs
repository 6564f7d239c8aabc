//! Laws of the cast engine, stated over the functions that its contracts use.

use vstd::prelude::*;
use crate::cast::diagnostic::{cannot_cast_of, Diagnostic};
use crate::cast::legality::{verdict, Verdict};
use crate::cast::lower::{lowering, CastView};
use crate::cast::strategy::{strategy_of, Strategy};
use crate::lowered::{Intrinsic, LoweredView};
use crate::types::Width;

verus! {

/// The diagnostic of `cast`, should it be illegal.
pub open spec fn rejection(cast: CastView) -> Diagnostic {
    cannot_cast_of(cast.source_type, cast.target_type, cast.span)
}

/// Totality: every pair of types has a verdict, and lowering follows it. A
/// legal pair has a strategy of the verdict's kind and lowers to an
/// expression; an illegal pair has no strategy and lowers to the `CannotCast`
/// diagnostic of the cast. There is no third outcome.
pub proof fn law_totality(cast: CastView)
    ensures
        match verdict(cast.source_type.family(), cast.target_type.family()) {
            Verdict::Legal(kind) => {
                &&& strategy_of(cast.source_type, cast.target_type) matches Some(s) && s.kind()
                    == kind
                &&& lowering(cast) is Ok
            },
            Verdict::Illegal => {
                &&& strategy_of(cast.source_type, cast.target_type) is None
                &&& lowering(cast) == Err::<LoweredView, Diagnostic>(rejection(cast))
            },
        },
{
}

/// Width independence: between a floating-point operand and a target that
/// is not an angle, neither width takes part in the lowering. Two such casts
/// to the same family have the same strategy, or both have none, whether
/// their types are sized or unsized and whatever the bit counts are; where
/// they are legal, the same operand lowers to the same expression.
pub proof fn law_width_independence(a: CastView, b: CastView)
    requires
        a.source_type.family() is Float,
        b.source_type.family() is Float,
        a.target_type.family() == b.target_type.family(),
        !(a.target_type.family() is Angle),
        a.operand == b.operand,
    ensures
        strategy_of(a.source_type, a.target_type) == strategy_of(b.source_type, b.target_type),
        lowering(a) is Ok <==> lowering(b) is Ok,
        lowering(a) is Ok ==> lowering(a) == lowering(b),
{
}

/// Bit array rejection: no floating-point operand can be cast to a bit
/// array, whatever the two widths are.
pub proof fn law_bit_array_rejected(cast: CastView)
    requires
        cast.source_type.family() is Float,
        cast.target_type.family() is BitArray,
    ensures
        verdict(cast.source_type.family(), cast.target_type.family()) is Illegal,
        strategy_of(cast.source_type, cast.target_type) is None,
        lowering(cast) == Err::<LoweredView, Diagnostic>(rejection(cast)),
{
}

/// Angle width threading: a floating-point operand cast to an angle of `n`
/// bits is handed to the angle constructor with the width `n`, and cast to
/// an unsized angle with the width 53, whatever the operand's own width is.
pub proof fn law_angle_width(cast: CastView)
    requires
        cast.source_type.family() is Float,
        cast.target_type.family() is Angle,
    ensures
        ({
            let width_bits = match cast.target_type.width() {
                Width::Sized(n) => n,
                Width::Unsized => 53u32,
            };
            &&& strategy_of(cast.source_type, cast.target_type) == Some(
                Strategy::ConstructAngle(width_bits),
            )
            &&& lowering(cast) == Ok::<LoweredView, Diagnostic>(
                LoweredView::Call(
                    Intrinsic::DoubleAsAngle,
                    seq![cast.operand, LoweredView::Int(width_bits as int)],
                ),
            )
        }),
{
}

/// Identity: a floating-point operand cast to a floating-point type lowers
/// to the operand itself, with nothing wrapped around it.
pub proof fn law_float_to_float_is_identity(cast: CastView)
    requires
        cast.source_type.family() is Float,
        cast.target_type.family() is Float,
    ensures
        lowering(cast) == Ok::<LoweredView, Diagnostic>(cast.operand),
{
}

} // verus!
