//! A decoder and a validator for WebAssembly 1.0 binary modules.
//!
//! [`decoder::modules::decode`] turns the bytes of a module into a [`types::Module`], or
//! says at which offset the bytes stop following the binary format.
//! [`validation::modules::validate`] holds a module to the static rules of the language:
//! limits, index spaces, constant expressions, and the types of the operands of every
//! instruction.
//!
//! Both are verified against a model of what they compute. The grammar of the binary
//! format is a family of functions from bytes and a position to a value and the position
//! behind it, or to a fault; the rules of validation are functions from the two stacks of
//! the validation algorithm to the stacks behind an instruction, or to the message of the
//! rule that is broken. Each reader and each check returns what its model says.

pub mod decoder;
pub mod test_runner;
pub mod types;
pub mod validation;
