//! A verified encoder for the "Quite OK Image" (QOI) byte stream format.
//!
//! The crate turns an in-memory buffer of RGB or RGBA pixels into the
//! self-describing QOI stream: a fixed 14-byte header, a sequence of
//! variable-length opcodes chosen by a per-pixel state machine, and a fixed
//! 8-byte end marker.  Every emitted byte is pinned down by the contracts:
//! `encode` ensures that the sink receives exactly the stream that the
//! specification functions of the encoder module describe.

mod constants;
mod encode;
mod error;
mod header;
mod pixel;
mod writer;

pub use encode::encode;
pub use error::Error;
pub use header::{ColorChannel, ColorSpace, Header};
pub use pixel::{Pixel, PixelView, SupportedChannels};
pub use writer::{VecWriter, Writer};
