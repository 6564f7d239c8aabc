//! Explicit casts, `TargetType(expr)`: which are legal, and what each lowers to.
//!
//! A cast is judged by the families of its two types ([`legality`]); the
//! verdict names a strategy, whose runtime parameters are resolved from the
//! target type ([`strategy`]); the strategy is then applied to the operand
//! ([`lower`]). An illegal cast yields a diagnostic instead.

pub mod diagnostic;
pub mod laws;
pub mod legality;
pub mod lower;
pub mod strategy;
pub mod width;
