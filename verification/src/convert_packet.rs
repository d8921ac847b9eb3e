//! Conversion between typed events and packets.

use vstd::prelude::*;

use crate::event::EventError;
use crate::packet::{Packet, PacketModel};

verus! {

/// Everything that can go wrong while decoding a typed event from a
/// packet.
#[derive(Debug, PartialEq, Eq, Clone, Copy)]
pub enum ConvertPacketError {
    /// The packet's payload has the wrong length for this event.
    WrongSize,
    /// A tagged sub-value carries an unknown tag.
    UnknownEnumVariant,
    /// The packet's error flag does not match this event.
    WrongType,
    /// An event-level error.
    Event(EventError),
}

/// A typed event that can be read from and written to a [`Packet`].
///
/// Every implementation fixes, as spec functions, what decoding a packet
/// model yields and what packet model an event encodes to; the
/// executable conversions are proved against them.
pub trait ConvertPacket<T: View>: View + Sized {
    /// What decoding `packet` yields for this event type: the event's
    /// model, or the exact error.
    spec fn spec_try_from_packet(packet: PacketModel) -> Result<T::V, ConvertPacketError>;

    /// The packet model this event encodes to.
    spec fn spec_to_packet(&self) -> PacketModel;

    /// Decodes the event from a packet.
    fn try_from_packet(packet: &Packet) -> (r: Result<T, ConvertPacketError>)
        ensures
            match r {
                Ok(ev) => Self::spec_try_from_packet(packet@) == Ok::<T::V, ConvertPacketError>(
                    ev@,
                ),
                Err(e) => Self::spec_try_from_packet(packet@) == Err::<T::V, ConvertPacketError>(
                    e,
                ),
            },
    ;

    /// Encodes the event into a packet.
    fn to_packet(&self) -> (r: Packet)
        ensures
            r@ == self.spec_to_packet(),
    ;
}

} // verus!
