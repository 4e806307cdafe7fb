//! Tag bytes of the QOI opcode stream.

use vstd::prelude::*;

verus! {

/// Tag byte announcing three raw channel bytes.
pub const QOI_OP_RGB: u8 = 0xfe;

/// Tag byte announcing four raw channel bytes.
pub const QOI_OP_RGBA: u8 = 0xff;

/// High bits of a one-byte cache-index opcode; the low six bits carry the index.
pub const QOI_OP_INDEX: u8 = 0x00;

/// High bits of a one-byte small-difference opcode.
pub const QOI_OP_DIFF: u8 = 0x40;

/// High bits of the first byte of a two-byte luma-difference opcode.
pub const QOI_OP_LUMA: u8 = 0x80;

/// High bits of a one-byte run opcode; the low six bits carry the length minus one.
pub const QOI_OP_RUN: u8 = 0xc0;

} // verus!
