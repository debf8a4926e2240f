//! The decoder of the binary format: a cursor over the bytes, readers of values, types,
//! instructions and sections, each with the grammar that it follows.

pub mod cursor;
pub mod instructions;
pub mod laws;
pub mod modules;
pub mod types;
pub mod values;
pub mod vectors;

pub use crate::decoder::cursor::{Decoder, DecoderError, DecoderResult};
