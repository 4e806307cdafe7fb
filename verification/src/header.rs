//! The fixed 14-byte stream header: magic, dimensions, channel count and
//! color space, with strict validation on the way back in.

use crate::error::Error;
use vstd::prelude::*;

verus! {

/// Length of the serialized header in bytes.
pub const QOI_HEADER_SIZE: usize = 14;

/// Number of channels a pixel of the stream carries.
#[derive(Clone, Copy, Debug, PartialEq, Eq, Structural)]
pub enum ColorChannel {
    Rgb,
    Rgba,
}

/// How the channel values are to be interpreted.
#[derive(Clone, Copy, Debug, PartialEq, Eq, Structural)]
pub enum ColorSpace {
    Srgb,
    AllLinear,
}

/// The tag byte a channel count is written as: 3 or 4.
pub open spec fn spec_channel_byte(c: ColorChannel) -> u8 {
    match c {
        ColorChannel::Rgb => 3,
        ColorChannel::Rgba => 4,
    }
}

/// The channel count a tag byte denotes, if any.
pub open spec fn spec_channel_from_byte(b: u8) -> Option<ColorChannel> {
    if b == 3 {
        Some(ColorChannel::Rgb)
    } else if b == 4 {
        Some(ColorChannel::Rgba)
    } else {
        None
    }
}

/// The tag byte a color space is written as: 0 or 1.
pub open spec fn spec_color_space_byte(c: ColorSpace) -> u8 {
    match c {
        ColorSpace::Srgb => 0,
        ColorSpace::AllLinear => 1,
    }
}

/// The color space a tag byte denotes, if any.
pub open spec fn spec_color_space_from_byte(b: u8) -> Option<ColorSpace> {
    if b == 0 {
        Some(ColorSpace::Srgb)
    } else if b == 1 {
        Some(ColorSpace::AllLinear)
    } else {
        None
    }
}

impl ColorChannel {
    /// The tag byte written into the header.
    pub fn to_u8(self) -> (b: u8)
        ensures
            b == spec_channel_byte(self),
    {
        match self {
            ColorChannel::Rgb => 3,
            ColorChannel::Rgba => 4,
        }
    }

    /// The channel count a tag byte denotes: `Some` exactly for 3 and 4.
    pub fn from_u8(b: u8) -> (r: Option<ColorChannel>)
        ensures
            r == spec_channel_from_byte(b),
    {
        if b == 3 {
            Some(ColorChannel::Rgb)
        } else if b == 4 {
            Some(ColorChannel::Rgba)
        } else {
            None
        }
    }
}

impl ColorSpace {
    /// The tag byte written into the header.
    pub fn to_u8(self) -> (b: u8)
        ensures
            b == spec_color_space_byte(self),
    {
        match self {
            ColorSpace::Srgb => 0,
            ColorSpace::AllLinear => 1,
        }
    }

    /// The color space a tag byte denotes: `Some` exactly for 0 and 1.
    pub fn from_u8(b: u8) -> (r: Option<ColorSpace>)
        ensures
            r == spec_color_space_from_byte(b),
    {
        if b == 0 {
            Some(ColorSpace::Srgb)
        } else if b == 1 {
            Some(ColorSpace::AllLinear)
        } else {
            None
        }
    }
}

/// The four magic bytes every stream starts with: `b"qoif"`.
pub open spec fn spec_magic() -> Seq<u8> {
    seq![0x71u8, 0x6fu8, 0x69u8, 0x66u8]
}

/// A `u32` as four big-endian bytes.
pub open spec fn spec_u32_be_bytes(x: u32) -> Seq<u8> {
    seq![
        ((x >> 24) & 0xff) as u8,
        ((x >> 16) & 0xff) as u8,
        ((x >> 8) & 0xff) as u8,
        (x & 0xff) as u8,
    ]
}

/// Four big-endian bytes as a `u32`.
pub open spec fn spec_u32_from_be_bytes(b0: u8, b1: u8, b2: u8, b3: u8) -> u32 {
    ((b0 as u32) << 24) | ((b1 as u32) << 16) | ((b2 as u32) << 8) | (b3 as u32)
}

/// The description a stream starts with.
#[derive(Debug, PartialEq, Eq, Structural)]
pub struct Header {
    pub width: u32,
    pub height: u32,
    pub channels: ColorChannel,
    pub color_space: ColorSpace,
}

/// The exact 14 bytes a header serializes to.
pub open spec fn spec_header_bytes(h: Header) -> Seq<u8> {
    spec_magic() + spec_u32_be_bytes(h.width) + spec_u32_be_bytes(h.height)
        + seq![spec_channel_byte(h.channels), spec_color_space_byte(h.color_space)]
}

/// The header a byte sequence denotes: `Some` exactly for the well-formed
/// 14-byte serializations.
pub open spec fn spec_parse_header(s: Seq<u8>) -> Option<Header> {
    if s.len() != QOI_HEADER_SIZE {
        None
    } else if s.subrange(0, 4) != spec_magic() {
        None
    } else {
        match (spec_channel_from_byte(s[12]), spec_color_space_from_byte(s[13])) {
            (Some(channels), Some(color_space)) => Some(
                Header {
                    width: spec_u32_from_be_bytes(s[4], s[5], s[6], s[7]),
                    height: spec_u32_from_be_bytes(s[8], s[9], s[10], s[11]),
                    channels,
                    color_space,
                },
            ),
            _ => None,
        }
    }
}

impl Header {
    pub fn new(width: u32, height: u32, channels: ColorChannel, color_space: ColorSpace) -> (h:
        Header)
        ensures
            h == (Header { width, height, channels, color_space }),
    {
        Header { width, height, channels, color_space }
    }

    /// Serialize: magic, big-endian width and height, then the two tag bytes.
    pub fn as_bytes(&self) -> (bytes: [u8; 14])
        ensures
            bytes@ == spec_header_bytes(*self),
    {
        let mut bytes = [0u8; 14];
        bytes[0] = 0x71;
        bytes[1] = 0x6f;
        bytes[2] = 0x69;
        bytes[3] = 0x66;
        bytes[4] = ((self.width >> 24) & 0xff) as u8;
        bytes[5] = ((self.width >> 16) & 0xff) as u8;
        bytes[6] = ((self.width >> 8) & 0xff) as u8;
        bytes[7] = (self.width & 0xff) as u8;
        bytes[8] = ((self.height >> 24) & 0xff) as u8;
        bytes[9] = ((self.height >> 16) & 0xff) as u8;
        bytes[10] = ((self.height >> 8) & 0xff) as u8;
        bytes[11] = (self.height & 0xff) as u8;
        bytes[12] = self.channels.to_u8();
        bytes[13] = self.color_space.to_u8();
        proof {
            assert(bytes@ =~= spec_header_bytes(*self));
        }
        bytes
    }

    /// Deserialize with strict validation, checked in this order: size, magic,
    /// channel tag, color-space tag.  The first failing check decides the error.
    pub fn try_from_bytes(bytes: &[u8]) -> (r: Result<Header, Error>)
        ensures
            ({
                let s = bytes@;
                match r {
                    Ok(h) => spec_parse_header(s) == Some(h),
                    Err(Error::InvalidHeaderSize(n)) => n == s.len() && s.len() != QOI_HEADER_SIZE,
                    Err(Error::InvalidMagic(m)) => s.len() == QOI_HEADER_SIZE && m@ == s.subrange(
                        0,
                        4,
                    ) && s.subrange(0, 4) != spec_magic(),
                    Err(Error::InvalidChannelNumber(b)) => s.len() == QOI_HEADER_SIZE && s.subrange(
                        0,
                        4,
                    ) == spec_magic() && b == s[12] && spec_channel_from_byte(b) is None,
                    Err(Error::InvalidColorspace(b)) => s.len() == QOI_HEADER_SIZE && s.subrange(
                        0,
                        4,
                    ) == spec_magic() && spec_channel_from_byte(s[12]) is Some && b == s[13]
                        && spec_color_space_from_byte(b) is None,
                    _ => false,
                }
            }),
    {
        if bytes.len() != QOI_HEADER_SIZE {
            return Err(Error::InvalidHeaderSize(bytes.len()));
        }
        if !(bytes[0] == 0x71 && bytes[1] == 0x6f && bytes[2] == 0x69 && bytes[3] == 0x66) {
            let m = [bytes[0], bytes[1], bytes[2], bytes[3]];
            proof {
                assert(m@ =~= bytes@.subrange(0, 4));
                assert(bytes@.subrange(0, 4) != spec_magic()) by {
                    assert(spec_magic()[0] == 0x71 && spec_magic()[1] == 0x6f && spec_magic()[2]
                        == 0x69 && spec_magic()[3] == 0x66);
                    assert(bytes@.subrange(0, 4)[0] == bytes@[0]);
                    assert(bytes@.subrange(0, 4)[1] == bytes@[1]);
                    assert(bytes@.subrange(0, 4)[2] == bytes@[2]);
                    assert(bytes@.subrange(0, 4)[3] == bytes@[3]);
                }
            }
            return Err(Error::InvalidMagic(m));
        }
        proof {
            assert(bytes@.subrange(0, 4) =~= spec_magic());
        }
        let width = ((bytes[4] as u32) << 24) | ((bytes[5] as u32) << 16) | ((bytes[6] as u32) << 8)
            | (bytes[7] as u32);
        let height = ((bytes[8] as u32) << 24) | ((bytes[9] as u32) << 16) | (
        (bytes[10] as u32) << 8) | (bytes[11] as u32);
        let channel_byte = bytes[12];
        let channels = match ColorChannel::from_u8(channel_byte) {
            Some(c) => c,
            None => {
                return Err(Error::InvalidChannelNumber(channel_byte));
            },
        };
        let color_space_byte = bytes[13];
        let color_space = match ColorSpace::from_u8(color_space_byte) {
            Some(c) => c,
            None => {
                return Err(Error::InvalidColorspace(color_space_byte));
            },
        };
        Ok(Header { width, height, channels, color_space })
    }
}

/// Serializing a `u32` big-endian and reading the four bytes back gives the
/// original value.
proof fn lemma_u32_be_round_trip(x: u32)
    ensures
        spec_u32_from_be_bytes(
            ((x >> 24) & 0xff) as u8,
            ((x >> 16) & 0xff) as u8,
            ((x >> 8) & 0xff) as u8,
            (x & 0xff) as u8,
        ) == x,
{
    assert((((((x >> 24) & 0xff) as u8) as u32) << 24) | (((((x >> 16) & 0xff) as u8) as u32) << 16)
        | (((((x >> 8) & 0xff) as u8) as u32) << 8) | (((x & 0xff) as u8) as u32) == x)
        by (bit_vector);
}

/// Header round trip: every header, whatever its dimensions and tags, reads
/// back from its own serialization unchanged.
pub proof fn lemma_header_round_trip(h: Header)
    ensures
        spec_parse_header(spec_header_bytes(h)) == Some(h),
{
    let s = spec_header_bytes(h);
    assert(s.len() == QOI_HEADER_SIZE);
    assert(s.subrange(0, 4) =~= spec_magic());
    assert(s[12] == spec_channel_byte(h.channels));
    assert(s[13] == spec_color_space_byte(h.color_space));
    assert(spec_channel_from_byte(s[12]) == Some(h.channels));
    assert(spec_color_space_from_byte(s[13]) == Some(h.color_space));
    assert(s[4] == ((h.width >> 24) & 0xff) as u8);
    assert(s[5] == ((h.width >> 16) & 0xff) as u8);
    assert(s[6] == ((h.width >> 8) & 0xff) as u8);
    assert(s[7] == (h.width & 0xff) as u8);
    lemma_u32_be_round_trip(h.width);
    lemma_u32_be_round_trip(h.height);
    assert(spec_u32_from_be_bytes(s[4], s[5], s[6], s[7]) == h.width);
    assert(spec_u32_from_be_bytes(s[8], s[9], s[10], s[11]) == h.height);
}

} // verus!
