//! The predicates this crate provides, grouped by what they judge.

pub mod path;
