//! The lowering dispatcher: from a cast expression to its lowered form.

use vstd::prelude::*;
use crate::cast::diagnostic::{cannot_cast_of, Diagnostic, SourceRange};
use crate::cast::strategy::{strategy, strategy_of, Strategy};
use crate::lowered::{Intrinsic, LoweredExpression, LoweredView};
use crate::types::Type;

verus! {

/// An explicit cast, `TargetType(operand)`, with its types resolved.
///
/// The operand is held in its lowered form. A cast expression is not changed
/// after it is built.
#[derive(Debug, PartialEq, Eq)]
pub struct CastExpression {
    source_type: Type,
    target_type: Type,
    operand: LoweredExpression,
    span: SourceRange,
}

/// The mathematical content of a [`CastExpression`].
pub struct CastView {
    pub source_type: Type,
    pub target_type: Type,
    pub operand: LoweredView,
    pub span: SourceRange,
}

impl View for CastExpression {
    type V = CastView;

    closed spec fn view(&self) -> CastView {
        CastView {
            source_type: self.source_type,
            target_type: self.target_type,
            operand: self.operand@,
            span: self.span,
        }
    }
}

impl Clone for CastExpression {
    fn clone(&self) -> (r: Self)
        ensures
            r@ == self@,
    {
        CastExpression {
            source_type: self.source_type,
            target_type: self.target_type,
            operand: self.operand.clone(),
            span: self.span,
        }
    }
}

/// The double literal for zero.
pub open spec fn zero_double() -> Seq<char> {
    "0."@
}

/// What `strategy` makes of `operand`.
pub open spec fn lowered_form(strategy: Strategy, operand: LoweredView) -> LoweredView {
    match strategy {
        Strategy::Identity => operand,
        Strategy::TruncateToInteger => LoweredView::Call(Intrinsic::Truncate, seq![operand]),
        Strategy::TruncateThenCompareZero => LoweredView::IfElse(
            Box::new(
                LoweredView::Equals(
                    Box::new(LoweredView::Call(Intrinsic::Truncate, seq![operand])),
                    Box::new(LoweredView::Int(0)),
                ),
            ),
            Box::new(LoweredView::Bool(false)),
            Box::new(LoweredView::Bool(true)),
        ),
        Strategy::ConstructAngle(width_bits) => LoweredView::Call(
            Intrinsic::DoubleAsAngle,
            seq![operand, LoweredView::Int(width_bits as int)],
        ),
        Strategy::ConstructComplex => LoweredView::Call(
            Intrinsic::Complex,
            seq![operand, LoweredView::Double(zero_double())],
        ),
        Strategy::ConvertToBitResult => LoweredView::Call(
            Intrinsic::DoubleAsResult,
            seq![operand],
        ),
    }
}

/// What lowering makes of a cast: the lowered form under the cast's
/// strategy, or, where the cast has none, the `CannotCast` diagnostic with
/// the cast's own types and range.
pub open spec fn lowering(cast: CastView) -> Result<LoweredView, Diagnostic> {
    match strategy_of(cast.source_type, cast.target_type) {
        Some(strategy) => Ok(lowered_form(strategy, cast.operand)),
        None => Err(cannot_cast_of(cast.source_type, cast.target_type, cast.span)),
    }
}

/// The mathematical content of the result of [`lower`].
pub open spec fn lowered_view(r: Result<LoweredExpression, Diagnostic>) -> Result<
    LoweredView,
    Diagnostic,
> {
    match r {
        Ok(e) => Ok(e@),
        Err(d) => Err(d),
    }
}

/// Builds the lowered expression that `strategy` calls for around `operand`.
pub fn apply(strategy: Strategy, operand: LoweredExpression) -> (r: LoweredExpression)
    ensures
        r@ == lowered_form(strategy, operand@),
{
    match strategy {
        Strategy::Identity => operand,
        Strategy::TruncateToInteger => LoweredExpression::call1(Intrinsic::Truncate, operand),
        Strategy::TruncateThenCompareZero => {
            let truncated = LoweredExpression::call1(Intrinsic::Truncate, operand);
            let is_zero = LoweredExpression::Equals(
                Box::new(truncated),
                Box::new(LoweredExpression::Int(0)),
            );
            proof {
                reveal_with_fuel(LoweredExpression::content, 3);
            }
            LoweredExpression::IfElse(
                Box::new(is_zero),
                Box::new(LoweredExpression::Bool(false)),
                Box::new(LoweredExpression::Bool(true)),
            )
        },
        Strategy::ConstructAngle(width_bits) => LoweredExpression::call2(
            Intrinsic::DoubleAsAngle,
            operand,
            LoweredExpression::Int(width_bits as i64),
        ),
        Strategy::ConstructComplex => LoweredExpression::call2(
            Intrinsic::Complex,
            operand,
            LoweredExpression::Double(String::from_str("0.")),
        ),
        Strategy::ConvertToBitResult => LoweredExpression::call1(
            Intrinsic::DoubleAsResult,
            operand,
        ),
    }
}

impl CastExpression {
    /// The cast of `operand`, of type `source_type`, to `target_type`,
    /// written at `span`.
    pub fn new(
        source_type: Type,
        target_type: Type,
        operand: LoweredExpression,
        span: SourceRange,
    ) -> (r: CastExpression)
        ensures
            r@ == (CastView { source_type, target_type, operand: operand@, span }),
    {
        CastExpression { source_type, target_type, operand, span }
    }

    /// The type of the operand.
    pub fn source_type(&self) -> (r: Type)
        ensures
            r == self@.source_type,
    {
        self.source_type
    }

    /// The type that the cast names.
    pub fn target_type(&self) -> (r: Type)
        ensures
            r == self@.target_type,
    {
        self.target_type
    }

    /// The operand, in its lowered form.
    pub fn operand(&self) -> (r: &LoweredExpression)
        ensures
            r@ == self@.operand,
    {
        &self.operand
    }

    /// The range of the whole cast expression.
    pub fn span(&self) -> (r: SourceRange)
        ensures
            r == self@.span,
    {
        self.span
    }
}

/// Lowers an explicit cast.
///
/// A legal cast gives the lowered form of its strategy around the operand.
/// An illegal cast gives the `CannotCast` diagnostic with the cast's own
/// types and range, and no expression.
pub fn lower(cast: CastExpression) -> (r: Result<LoweredExpression, Diagnostic>)
    ensures
        lowered_view(r) == lowering(cast@),
{
    match strategy(&cast.source_type, &cast.target_type) {
        Some(chosen) => Ok(apply(chosen, cast.operand)),
        None => Err(Diagnostic::cannot_cast(cast.source_type, cast.target_type, cast.span)),
    }
}

} // verus!
