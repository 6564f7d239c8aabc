//! Diagnostics: what is reported for a cast that cannot be lowered.

use vstd::prelude::*;
use crate::types::Type;

verus! {

/// A range of source text, by the offsets of its first character and of the
/// character after its last.
#[derive(Clone, Copy, Debug, PartialEq, Eq, Structural)]
pub struct SourceRange {
    lo: u32,
    hi: u32,
}

impl SourceRange {
    pub closed spec fn spec_lo(&self) -> u32 {
        self.lo
    }

    pub closed spec fn spec_hi(&self) -> u32 {
        self.hi
    }

    /// A range is well formed when it does not end before it starts.
    pub open spec fn wf(&self) -> bool {
        self.lo() <= self.hi()
    }

    /// The range from `lo` up to `hi`, or `None` where `hi` is before `lo`.
    pub fn new(lo: u32, hi: u32) -> (r: Option<SourceRange>)
        ensures
            r is Some <==> lo <= hi,
            r matches Some(range) ==> range.wf() && range.lo() == lo && range.hi() == hi,
    {
        if lo <= hi {
            Some(SourceRange { lo, hi })
        } else {
            None
        }
    }

    #[verifier::when_used_as_spec(spec_lo)]
    pub fn lo(&self) -> (r: u32)
        ensures
            r == self.lo(),
    {
        self.lo
    }

    #[verifier::when_used_as_spec(spec_hi)]
    pub fn hi(&self) -> (r: u32)
        ensures
            r == self.hi(),
    {
        self.hi
    }
}

/// The kinds of diagnostic that lowering a cast can produce.
#[derive(Clone, Copy, Debug, PartialEq, Eq, Structural)]
pub enum DiagnosticKind {
    /// No conversion exists from the operand's type to the target type.
    CannotCast,
}

/// A diagnostic: its kind, the two types of the cast, and the range of the
/// whole cast expression, from the first character of the target type to the
/// closing parenthesis of the argument.
#[derive(Clone, Copy, Debug, PartialEq, Eq, Structural)]
pub struct Diagnostic {
    pub kind: DiagnosticKind,
    pub source_type: Type,
    pub target_type: Type,
    pub span: SourceRange,
}

/// The one-line message of a cast that cannot be made, with both types as
/// they are written in source text.
pub open spec fn cannot_cast_message(source_type: Type, target_type: Type) -> Seq<char> {
    "cannot cast expression of type "@ + source_type.syntax() + " to type "@
        + target_type.syntax()
}

/// The diagnostic that an illegal cast is reported with: `CannotCast`, with
/// the two types and the range of the cast as they stand.
pub open spec fn cannot_cast_of(source_type: Type, target_type: Type, span: SourceRange) -> Diagnostic {
    Diagnostic { kind: DiagnosticKind::CannotCast, source_type, target_type, span }
}

impl Diagnostic {
    /// The diagnostic for a cast from `source_type` to `target_type` that the
    /// matrix rules out, written at `span`.
    pub fn cannot_cast(source_type: Type, target_type: Type, span: SourceRange) -> (r: Diagnostic)
        ensures
            r == cannot_cast_of(source_type, target_type, span),
    {
        Diagnostic { kind: DiagnosticKind::CannotCast, source_type, target_type, span }
    }

    /// The code under which this diagnostic is reported.
    pub fn code(&self) -> (r: &'static str)
        ensures
            r@ == "Qasm.Lowerer.CannotCast"@,
    {
        match self.kind {
            DiagnosticKind::CannotCast => "Qasm.Lowerer.CannotCast",
        }
    }

    /// The one-line message of this diagnostic.
    pub fn message(&self) -> (r: String)
        ensures
            r@ == cannot_cast_message(self.source_type, self.target_type),
    {
        match self.kind {
            DiagnosticKind::CannotCast => {
                let source = self.source_type.to_text();
                let target = self.target_type.to_text();
                let mut r = String::from_str("cannot cast expression of type ");
                r.append(source.as_str());
                r.append(" to type ");
                r.append(target.as_str());
                r
            },
        }
    }
}

} // verus!
