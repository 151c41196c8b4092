//! A fixed-size array whose length is the sum of two compile-time constants.

mod array;
mod decode;
pub mod laws;

pub use array::{result_view, ArrayPlusExtra};
pub use decode::{decode_spec, ArrayBuilder, DecodeError};
