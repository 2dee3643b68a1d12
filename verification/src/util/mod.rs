//! Byte-level helpers shared by the device models and storage formats.
pub mod bits;
pub mod bytes;
pub mod parse;
pub mod text;
pub mod ids;
