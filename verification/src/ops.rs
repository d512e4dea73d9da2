//! The combinator nodes of the infallible filter universe.

pub mod and;
pub mod bool;
pub mod failable;
pub mod map;
pub mod not;
pub mod or;
pub mod xor;
