//! Device-bus messaging protocol runtime.
//!
//! The crate models a small embedded messaging stack: an atomic
//! transport unit with two wire encodings (a 29-bit CAN extended
//! identifier and a COBS byte stream), a variable-length packet split
//! over frames and reassembled by a builder, a closed family of typed
//! events convertible to and from packets, and an address-filtered
//! dispatcher over an abstract transport.

pub mod convert_packet;
pub mod event;
pub mod frame;
pub mod interface;
pub mod packet;
pub mod protocol;
