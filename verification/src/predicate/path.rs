//! Predicates about filesystem paths.

pub mod existence;

pub use self::existence::{existing, missing, ExistencePredicate};
