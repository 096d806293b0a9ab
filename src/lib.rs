//! Ordering of hyperbolic walls by their proximity to the origin.
//!
//! A distance is handed to this library as the bit pattern of an IEEE 754
//! binary64 value, so that the order on distances, and what happens on NaN,
//! can be stated and proved exactly.
pub mod binary64;
pub mod wall;
