//! Binary encoding with checksums built in.
//!
//! A value is written in one fixed wire format, and a value that matters can
//! be written with a checksum behind it: reading it back fails where the
//! checksum does not match, so that a damaged byte becomes an error and not a
//! wrong value.
//!
//! - [`Encode`], [`Decode`] and [`Codec`] write and read values; their wire
//!   format is stated by [`WireFormat`], and [`FixedSize`] marks the types
//!   whose values all take the same number of bytes.
//! - [`ChecksumWriter`] and [`ChecksumReader`] compute a checksum of what
//!   passes through them; [`config`] chooses the algorithm.
//! - [`WithChecksum`] puts a checksum behind any value, and [`Segment`] is a
//!   region of a file or buffer with a checksum of its own.
//! - [`Offset`], [`Size`] and [`Span`] keep positions and lengths apart.
//! - [`OffsetWriter`] and [`OffsetReader`] count the bytes that pass.
//!
//! Streams are those of [`stream`]; they are handed to `encode` and `decode`
//! by value and handed back with the outcome.
//!
//! ```rust
//! use codeq::config::CodeqConfig;
//! use codeq::config::Crc32fast;
//! use codeq::Decode;
//! use codeq::Encode;
//! use codeq::WithChecksum;
//!
//! let record = (1u32, vec![1u8, 2, 3]);
//!
//! let (n, buf) = Crc32fast::wrap(&record).encode(Vec::new());
//! assert_eq!(n.unwrap(), 19);
//! assert_eq!(buf, vec![
//!     0, 0, 0, 1, // the number
//!     0, 0, 0, 3, 1, 2, 3, // the bytes, behind their length
//!     0, 0, 0, 0, 31, 101, 71, 147, // the checksum
//! ]);
//!
//! let (back, rest) = WithChecksum::<Crc32fast, (u32, Vec<u8>)>::decode(buf.as_slice());
//! assert_eq!(back.unwrap().into_inner(), record);
//! assert!(rest.is_empty());
//! ```

pub mod byte_order;
mod checksum_reader;
mod checksum_writer;
mod codec;
pub mod config;
pub mod digits;
pub mod error;
pub mod error_context_ext;
mod fixed_size;
pub mod laws;
mod offset_reader;
mod offset_writer;
pub(crate) mod sealed;
pub mod segment;
mod span;
pub mod stream;
pub mod testing;
pub mod with_checksum;

pub use checksum_reader::mismatch_message;
pub use checksum_reader::ChecksumReader;
pub use checksum_writer::ChecksumWriter;
pub use codec::decodes;
pub use codec::impls;
pub use codec::Codec;
pub use codec::Decode;
pub use codec::Encode;
pub use codec::Parsed;
pub use codec::WireFormat;
pub use error::Error;
pub use error::ErrorKind;
pub use fixed_size::FixedSize;
pub use offset_reader::OffsetReader;
pub use offset_writer::OffsetWriter;
pub use segment::Segment;
pub use span::Offset;
pub use span::Size;
pub use span::Span;
pub use stream::Read;
pub use stream::Write;
pub use with_checksum::WithChecksum;
