//! Verified building blocks of a quantum language toolchain.
//!
//! The `cast` modules validate and lower explicit type conversions
//! (`TargetType(expr)`); `estimates` holds the logical overhead model used by
//! resource estimation.

pub mod cast;
pub mod estimates;
pub mod lowered;
pub mod text;
pub mod types;
