//! Verified decision layer of a technical-analysis indicator library.
//!
//! Prices reach this crate as *order keys*: `i64` values that order exactly as
//! the prices they stand for, and that negate and take absolute values as the
//! prices do (`key(-x) == -key(x)`). Every function here only compares,
//! selects, negates or indexes such keys, so its result is exact: the key it
//! returns is the key of the price the indicator picks. The floating-point
//! arithmetic of the indicators (sums, ratios, smoothing) is done around this
//! layer by the caller.

pub mod candles;
pub mod flow;
pub mod psar;
pub mod selection;
