//! A library for constructing predicates and combining them with logical
//! operators such as AND, OR, NOT and others.
//!
//! A filter decides a boolean about a borrowed value; a failable filter may
//! instead fail with an error, which the combinators propagate left to
//! right before any boolean short-circuit. Combinator nodes own their
//! children, form finite immutable trees, and evaluate as pure functions of
//! the tree and the input.

pub mod failable;
pub mod filter;
pub mod iter;
pub mod ops;
