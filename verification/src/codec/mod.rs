//! Encoding and decoding.

use vstd::prelude::*;

mod decode;
mod encode;
pub mod impls;
mod wire_format;

pub use decode::decodes;
pub use decode::Decode;
pub use encode::Encode;
pub use wire_format::Parsed;
pub use wire_format::WireFormat;

verus! {

/// A type that is both [`Encode`] and [`Decode`]. Every such type is a
/// `Codec` without further ado.
pub trait Codec: Encode + Decode {
}

impl<T> Codec for T where T: Encode + Decode {
}

} // verus!
