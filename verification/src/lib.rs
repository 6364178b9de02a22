//! Marshaling between a native tensor engine and typed host values: the
//! registry of element encodings, decoding of string tensors, and the
//! decisions a custom operator's kernel bridge takes on the engine's replies.

pub mod element_type;
pub mod error;
pub mod extract;
pub mod kernel;
pub mod shape;
pub mod strings;
