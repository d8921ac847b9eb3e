//! The closed family of typed events.
//!
//! Every event names a 16-bit code that occupies the first two payload
//! bytes of its packet; all numeric fields are big-endian.  The helpers
//! here read and write those big-endian fields.

use vstd::prelude::*;

pub mod bcm;
pub mod bootloader;
pub mod button;
pub mod configurator;
pub mod event_code;
pub mod event_packet;
pub mod general;
pub mod internal;
pub mod message;
pub mod programmer;
pub mod relay;

verus! {

/// An event-level decode error.
#[derive(Debug, PartialEq, Eq, Clone, Copy)]
pub enum EventError {
    /// The provided packet was of a wrong event type.
    WrongEventType,
}

/// The high byte of a 16-bit value.
pub open spec fn spec_u16_hi(x: u16) -> u8 {
    ((x >> 8) & 0xff) as u8
}

/// The low byte of a 16-bit value.
pub open spec fn spec_u16_lo(x: u16) -> u8 {
    (x & 0xff) as u8
}

/// The 16-bit value two big-endian bytes spell.
pub open spec fn spec_u16_from_be(hi: u8, lo: u8) -> u16 {
    ((hi as u16) << 8) | (lo as u16)
}

/// Byte `i` (0 is most significant) of a 32-bit value.
pub open spec fn spec_u32_byte(x: u32, i: int) -> u8 {
    if i == 0 {
        ((x >> 24) & 0xff) as u8
    } else if i == 1 {
        ((x >> 16) & 0xff) as u8
    } else if i == 2 {
        ((x >> 8) & 0xff) as u8
    } else {
        (x & 0xff) as u8
    }
}

/// The 32-bit value four big-endian bytes spell.
pub open spec fn spec_u32_from_be(b0: u8, b1: u8, b2: u8, b3: u8) -> u32 {
    ((b0 as u32) << 24) | ((b1 as u32) << 16) | ((b2 as u32) << 8) | (b3 as u32)
}

/// The high byte of a 16-bit value.
pub fn u16_hi(x: u16) -> (r: u8)
    ensures
        r == spec_u16_hi(x),
{
    proof {
        assert((x >> 8) & 0xff < 256) by (bit_vector);
    }
    ((x >> 8) & 0xff) as u8
}

/// The low byte of a 16-bit value.
pub fn u16_lo(x: u16) -> (r: u8)
    ensures
        r == spec_u16_lo(x),
{
    proof {
        assert(x & 0xff < 256) by (bit_vector);
    }
    (x & 0xff) as u8
}

/// Reads a 16-bit value from two big-endian bytes.
pub fn u16_from_be(hi: u8, lo: u8) -> (r: u16)
    ensures
        r == spec_u16_from_be(hi, lo),
{
    ((hi as u16) << 8) | (lo as u16)
}

/// Byte `i` (0 is most significant) of a 32-bit value.
pub fn u32_byte(x: u32, i: usize) -> (r: u8)
    requires
        i < 4,
    ensures
        r == spec_u32_byte(x, i as int),
{
    proof {
        assert((x >> 24) & 0xff < 256 && (x >> 16) & 0xff < 256 && (x >> 8) & 0xff < 256 && x
            & 0xff < 256) by (bit_vector);
    }
    if i == 0 {
        ((x >> 24) & 0xff) as u8
    } else if i == 1 {
        ((x >> 16) & 0xff) as u8
    } else if i == 2 {
        ((x >> 8) & 0xff) as u8
    } else {
        (x & 0xff) as u8
    }
}

/// Reads a 32-bit value from four big-endian bytes.
pub fn u32_from_be(b0: u8, b1: u8, b2: u8, b3: u8) -> (r: u32)
    ensures
        r == spec_u32_from_be(b0, b1, b2, b3),
{
    ((b0 as u32) << 24) | ((b1 as u32) << 16) | ((b2 as u32) << 8) | (b3 as u32)
}

/// Reading back the two big-endian bytes of a 16-bit value gives the
/// value.
pub proof fn lemma_u16_be_round_trip(x: u16)
    ensures
        spec_u16_from_be(spec_u16_hi(x), spec_u16_lo(x)) == x,
{
    assert(((((x >> 8) & 0xff) as u8) as u16) << 8 | (((x & 0xff) as u8) as u16) == x)
        by (bit_vector);
}

/// Reading back the four big-endian bytes of a 32-bit value gives the
/// value.
pub proof fn lemma_u32_be_round_trip(x: u32)
    ensures
        spec_u32_from_be(
            spec_u32_byte(x, 0),
            spec_u32_byte(x, 1),
            spec_u32_byte(x, 2),
            spec_u32_byte(x, 3),
        ) == x,
{
    assert(((((x >> 24) & 0xff) as u8) as u32) << 24 | ((((x >> 16) & 0xff) as u8) as u32) << 16 | (
    (((x >> 8) & 0xff) as u8) as u32) << 8 | (((x & 0xff) as u8) as u32) == x) by (bit_vector);
}

} // verus!
