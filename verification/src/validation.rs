//! The validator: the index spaces of a module, the rules for types, instructions and the
//! parts of a module, each with the check that follows it.

pub mod instructions;
pub mod laws;
pub mod modules;
pub mod types;
pub mod validation;

pub use crate::validation::validation::{Context, ValidationError, ValidationResult};
