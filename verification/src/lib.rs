//! Equality of IEEE 754 floating-point values under several notions of
//! "close enough": exact equality with NaN treated as a normal value,
//! equality to a number of decimal places (with a search for the decimal
//! precision actually achieved), and equality within an absolute or a
//! relative tolerance.
//!
//! A value is held as its raw bit pattern ([`float32::Float32`],
//! [`float64::Float64`]). Classification, ordering and every comparison
//! verdict are computed and verified on the bits; the four rounded
//! operations that the tolerances need (subtraction, multiplication,
//! division, powers of ten) are reached through `rustc_apfloat`, whose
//! results the contracts name.

pub mod compare;
pub mod float32;
pub mod float64;
pub mod precision;

pub use compare::Compare;
pub use float32::Float32;
pub use float64::Float64;
pub use precision::Precision;
