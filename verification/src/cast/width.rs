//! Width resolution: the bit count that stands for a type at run time.

use vstd::prelude::*;
use crate::types::{Family, Type, Width};

verus! {

/// The significand width of an IEEE 754 double: the width of an unsized
/// float, and of the types that default to double precision.
pub const DOUBLE_SIGNIFICAND_BITS: u32 = 53;

/// The width that a family takes when none is written. Only the families
/// that default to double precision have one.
pub open spec fn family_default(family: Family) -> Option<u32> {
    if family is Float || family is Angle || family is Complex {
        Some(53u32)
    } else {
        None
    }
}

/// The resolved width of a type: the written bit count, else the family's
/// default, else none.
pub open spec fn resolved_width(ty: Type) -> Option<u32> {
    match ty.width() {
        Width::Sized(n) => Some(n),
        Width::Unsized => family_default(ty.family()),
    }
}

/// The default width of `family`, where it has one.
pub fn default_width(family: Family) -> (r: Option<u32>)
    ensures
        r == family_default(family),
{
    match family {
        Family::Float | Family::Angle | Family::Complex => Some(DOUBLE_SIGNIFICAND_BITS),
        Family::Bool | Family::Int | Family::UInt | Family::Bit | Family::BitArray
        | Family::Duration => None,
    }
}

/// Resolves the width of `ty`: `n` for a type written with `n` bits, and the
/// family's default for an unsized one. `None` where the type is unsized and
/// its family has no default.
pub fn resolve_width(ty: &Type) -> (r: Option<u32>)
    ensures
        r == resolved_width(*ty),
{
    match ty.width() {
        Width::Sized(n) => Some(n),
        Width::Unsized => default_width(ty.family()),
    }
}

} // verus!
