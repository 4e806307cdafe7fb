//! Errors of the encoder and of the header codec.

use vstd::prelude::*;

verus! {

/// Declaration of `std::io::Error` so that a sink failure can be carried
/// verbatim inside [`Error`].  The value is opaque: nothing is assumed of it.
#[verifier::external_type_specification]
#[verifier::external_body]
pub struct ExIoError(std::io::Error);

/// Everything that can go wrong while encoding, or while reading a header back.
#[derive(Debug)]
pub enum Error {
    /// A header buffer whose length is not exactly 14 bytes; carries that length.
    InvalidHeaderSize(usize),
    /// A header that does not start with the magic bytes; carries the four bytes found.
    InvalidMagic([u8; 4]),
    /// A channel tag other than 3 or 4; carries the offending byte.
    InvalidChannelNumber(u8),
    /// A color-space tag other than 0 or 1; carries the offending byte.
    InvalidColorspace(u8),
    /// A pixel buffer whose length disagrees with the declared dimensions.
    UnmatchedDataSize { data_size: usize, header_size: usize },
    /// A failure reported by the byte sink, preserved as the sink raised it.
    IoError(std::io::Error),
}

} // verus!
