//! The failable filter universe: predicates whose evaluation can fail with
//! an error instead of returning a boolean.

pub mod filter;
pub mod ops;
