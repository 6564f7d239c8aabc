//! The type model: a family, and a bit width where the family takes one.

use vstd::prelude::*;
use crate::text::{decimal, decimal_text};

verus! {

/// The categorical kind of a type, independent of any width.
///
/// A bit array is a family of its own rather than a scalar bit with a length,
/// because the two are cast by entirely different rules.
#[derive(Clone, Copy, Debug, PartialEq, Eq, Structural)]
pub enum Family {
    Bool,
    Int,
    UInt,
    Float,
    Angle,
    Complex,
    Bit,
    BitArray,
    Duration,
}

/// The width annotation of a type.
#[derive(Clone, Copy, Debug, PartialEq, Eq, Structural)]
pub enum Width {
    /// An explicit bit count, as in `float[32]`.
    Sized(u32),
    /// No bit count was written; the family's default width applies.
    Unsized,
}

impl Family {
    /// Families whose types may be written with or without a bit count. For
    /// `Complex` the bit count is that of the inner float type.
    pub open spec fn width_optional(self) -> bool {
        self is Int || self is UInt || self is Float || self is Angle || self is Complex
    }

    /// Whether `width` is a legitimate annotation for this family: a written
    /// bit count is positive, a bit array always has one, and `Bool`,
    /// `Duration` and scalar `Bit` never do.
    pub open spec fn admits(self, width: Width) -> bool {
        match width {
            Width::Sized(n) => n > 0 && (self.width_optional() || self is BitArray),
            Width::Unsized => !(self is BitArray),
        }
    }

    /// The keyword that starts a type of this family in source text.
    pub open spec fn keyword(self) -> Seq<char> {
        match self {
            Family::Bool => "bool"@,
            Family::Int => "int"@,
            Family::UInt => "uint"@,
            Family::Float => "float"@,
            Family::Angle => "angle"@,
            Family::Complex => "complex"@,
            Family::Bit => "bit"@,
            Family::BitArray => "bit"@,
            Family::Duration => "duration"@,
        }
    }

    /// Every family, each exactly once.
    pub fn all() -> (r: Vec<Family>)
        ensures
            r@.len() == 9,
            r@.no_duplicates(),
            forall|f: Family| r@.contains(f),
    {
        let r = vec![
            Family::Bool,
            Family::Int,
            Family::UInt,
            Family::Float,
            Family::Angle,
            Family::Complex,
            Family::Bit,
            Family::BitArray,
            Family::Duration,
        ];
        proof {
            assert forall|f: Family| r@.contains(f) by {
                let i: int = match f {
                    Family::Bool => 0,
                    Family::Int => 1,
                    Family::UInt => 2,
                    Family::Float => 3,
                    Family::Angle => 4,
                    Family::Complex => 5,
                    Family::Bit => 6,
                    Family::BitArray => 7,
                    Family::Duration => 8,
                };
                assert(r@[i] == f);
            }
        }
        r
    }

    /// The exec counterpart of [`Family::keyword`].
    pub fn keyword_text(self) -> (r: &'static str)
        ensures
            r@ == self.keyword(),
    {
        match self {
            Family::Bool => "bool",
            Family::Int => "int",
            Family::UInt => "uint",
            Family::Float => "float",
            Family::Angle => "angle",
            Family::Complex => "complex",
            Family::Bit => "bit",
            Family::BitArray => "bit",
            Family::Duration => "duration",
        }
    }
}

/// A source type: its family and its width annotation.
#[derive(Clone, Copy, Debug, PartialEq, Eq, Structural)]
pub struct Type {
    family: Family,
    width: Width,
}

/// A type as it is written in source text: the family's keyword, followed by
/// the bit count in brackets where one was written. A complex type names its
/// inner float type, as in `complex[float[64]]`.
pub open spec fn surface_syntax(family: Family, width: Width) -> Seq<char> {
    match width {
        Width::Unsized => family.keyword(),
        Width::Sized(n) => if family is Complex {
            family.keyword() + "[float["@ + decimal(n as nat) + "]]"@
        } else {
            family.keyword() + "["@ + decimal(n as nat) + "]"@
        },
    }
}

impl Type {
    /// The family of this type.
    pub closed spec fn spec_family(&self) -> Family {
        self.family
    }

    /// The width annotation of this type.
    pub closed spec fn spec_width(&self) -> Width {
        self.width
    }

    /// A type is well formed when its family admits its width annotation.
    pub open spec fn wf(&self) -> bool {
        self.family().admits(self.width())
    }

    /// The source text of this type.
    pub open spec fn syntax(&self) -> Seq<char> {
        surface_syntax(self.family(), self.width())
    }

    /// Builds the type of `family` with `width`, or `None` where the family
    /// does not admit that annotation.
    pub fn new(family: Family, width: Width) -> (r: Option<Type>)
        ensures
            r is Some <==> family.admits(width),
            r matches Some(t) ==> t.wf() && t.family() == family && t.width() == width,
    {
        let optional = match family {
            Family::Int | Family::UInt | Family::Float | Family::Angle | Family::Complex => true,
            _ => false,
        };
        let array = match family {
            Family::BitArray => true,
            _ => false,
        };
        let admitted = match width {
            Width::Sized(n) => n > 0 && (optional || array),
            Width::Unsized => !array,
        };
        if admitted {
            Some(Type { family, width })
        } else {
            None
        }
    }

    #[verifier::when_used_as_spec(spec_family)]
    pub fn family(&self) -> (r: Family)
        ensures
            r == self.family(),
    {
        self.family
    }

    #[verifier::when_used_as_spec(spec_width)]
    pub fn width(&self) -> (r: Width)
        ensures
            r == self.width(),
    {
        self.width
    }

    /// Writes this type as it appears in source text.
    pub fn to_text(&self) -> (r: String)
        ensures
            r@ == self.syntax(),
    {
        let mut r = String::from_str(self.family.keyword_text());
        match self.width {
            Width::Unsized => {},
            Width::Sized(n) => {
                let digits = decimal_text(n as u64);
                match self.family {
                    Family::Complex => {
                        r.append("[float[");
                        r.append(digits.as_str());
                        r.append("]]");
                    },
                    _ => {
                        r.append("[");
                        r.append(digits.as_str());
                        r.append("]");
                    },
                }
            },
        }
        r
    }
}

} // verus!
