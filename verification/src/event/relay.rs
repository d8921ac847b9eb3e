//! Relay events.

use vstd::prelude::*;

use crate::convert_packet::{ConvertPacket, ConvertPacketError};
use crate::event::event_code::{RELAY_FLIP_STATE_EVENT_CODE, RELAY_SET_VALUE_EVENT_CODE};
use crate::event::EventError;
use crate::event::{
    spec_u16_from_be, spec_u16_hi, spec_u16_lo, u16_from_be, u16_hi, u16_lo,
    lemma_u16_be_round_trip,
};
use crate::packet::{Packet, PacketModel};

verus! {

/// The state of a pair of relays wired to exclude one another.
#[derive(Debug, Copy, Clone, Eq, PartialEq, Ord, PartialOrd)]
pub enum RelayDoubleExclusiveValue {
    /// Only the first channel conducts.
    FirstChannelOn,
    /// Only the second channel conducts.
    SecondChannelOn,
    /// Neither channel conducts.
    NoChannelOn,
}

/// A relay state: a single channel on or off, or a double-exclusive
/// pair.
#[derive(Debug, Copy, Clone, Eq, PartialEq, Ord, PartialOrd)]
pub enum RelayValue {
    /// One channel, on or off.
    Single(bool),
    /// A pair of mutually exclusive channels.
    DoubleExclusive(RelayDoubleExclusiveValue),
}

/// The tagged on-wire byte of a relay state.
pub open spec fn spec_relay_value_bytes(v: RelayValue) -> Seq<u8> {
    match v {
        RelayValue::Single(value) => if value {
            seq![0x00u8]
        } else {
            seq![0x01u8]
        },
        RelayValue::DoubleExclusive(RelayDoubleExclusiveValue::FirstChannelOn) => seq![0x02u8],
        RelayValue::DoubleExclusive(RelayDoubleExclusiveValue::SecondChannelOn) => seq![0x03u8],
        RelayValue::DoubleExclusive(RelayDoubleExclusiveValue::NoChannelOn) => seq![0x04u8],
    }
}

/// What decoding a relay state from bytes yields: exactly one tag byte.
pub open spec fn spec_relay_value_from_bytes(data: Seq<u8>) -> Result<
    RelayValue,
    ConvertPacketError,
> {
    if data.len() != 1 {
        Err(ConvertPacketError::WrongSize)
    } else if data[0] == 0x00 {
        Ok(RelayValue::Single(true))
    } else if data[0] == 0x01 {
        Ok(RelayValue::Single(false))
    } else if data[0] == 0x02 {
        Ok(RelayValue::DoubleExclusive(RelayDoubleExclusiveValue::FirstChannelOn))
    } else if data[0] == 0x03 {
        Ok(RelayValue::DoubleExclusive(RelayDoubleExclusiveValue::SecondChannelOn))
    } else if data[0] == 0x04 {
        Ok(RelayValue::DoubleExclusive(RelayDoubleExclusiveValue::NoChannelOn))
    } else {
        Err(ConvertPacketError::UnknownEnumVariant)
    }
}

impl RelayValue {
    /// Writes the state as its tagged on-wire byte.
    pub(crate) fn serialize(self) -> (r: Vec<u8>)
        ensures
            r@ == spec_relay_value_bytes(self),
    {
        let mut data: Vec<u8> = Vec::new();
        match self {
            Self::Single(value) => {
                if value {
                    data.push(0x00);
                } else {
                    data.push(0x01);
                }
            },
            Self::DoubleExclusive(RelayDoubleExclusiveValue::FirstChannelOn) => {
                data.push(0x02);
            },
            Self::DoubleExclusive(RelayDoubleExclusiveValue::SecondChannelOn) => {
                data.push(0x03);
            },
            Self::DoubleExclusive(RelayDoubleExclusiveValue::NoChannelOn) => {
                data.push(0x04);
            },
        }
        proof {
            assert(data@ =~= spec_relay_value_bytes(self));
        }
        data
    }

    /// Reads a state from its tagged on-wire byte.
    pub(crate) fn deserialize(data: &[u8]) -> (r: Result<Self, ConvertPacketError>)
        ensures
            r == spec_relay_value_from_bytes(data@),
    {
        if data.len() != 1 {
            return Err(ConvertPacketError::WrongSize);
        }

        if data[0] == 0x00 {
            Ok(Self::Single(true))
        } else if data[0] == 0x01 {
            Ok(Self::Single(false))
        } else if data[0] == 0x02 {
            Ok(Self::DoubleExclusive(RelayDoubleExclusiveValue::FirstChannelOn))
        } else if data[0] == 0x03 {
            Ok(Self::DoubleExclusive(RelayDoubleExclusiveValue::SecondChannelOn))
        } else if data[0] == 0x04 {
            Ok(Self::DoubleExclusive(RelayDoubleExclusiveValue::NoChannelOn))
        } else {
            Err(ConvertPacketError::UnknownEnumVariant)
        }
    }
}

/// Law: decoding an encoded relay state gives the state back.
pub proof fn lemma_relay_value_round_trip(v: RelayValue)
    ensures
        spec_relay_value_from_bytes(spec_relay_value_bytes(v)) == Ok::<
            RelayValue,
            ConvertPacketError,
        >(v),
{
}

/// Sets a relay's state.
#[derive(Debug, Eq, PartialEq, Ord, PartialOrd, Clone, Copy)]
pub struct RelaySetValueEvent {
    /// The relay module.
    pub relay_address: u16,
    /// The requesting device.
    pub transmitter_address: u16,
    /// Which relay on the module.
    pub index: u8,
    /// The state to set.
    pub value: RelayValue,
}

impl View for RelaySetValueEvent {
    type V = RelaySetValueEvent;

    open spec fn view(&self) -> RelaySetValueEvent {
        *self
    }
}

impl ConvertPacket<RelaySetValueEvent> for RelaySetValueEvent {
    open spec fn spec_try_from_packet(packet: PacketModel) -> Result<
        RelaySetValueEvent,
        ConvertPacketError,
    > {
        if packet.is_error {
            Err(ConvertPacketError::WrongType)
        } else if packet.data.len() != 6 {
            Err(ConvertPacketError::WrongSize)
        } else if spec_u16_from_be(packet.data[0], packet.data[1]) != RELAY_SET_VALUE_EVENT_CODE {
            Err(ConvertPacketError::Event(EventError::WrongEventType))
        } else {
            match spec_relay_value_from_bytes(packet.data.skip(5)) {
                Ok(value) => Ok(
                    RelaySetValueEvent {
                        relay_address: packet.device_address,
                        transmitter_address: spec_u16_from_be(packet.data[2], packet.data[3]),
                        index: packet.data[4],
                        value,
                    },
                ),
                Err(e) => Err(e),
            }
        }
    }

    open spec fn spec_to_packet(&self) -> PacketModel {
        PacketModel {
            is_error: false,
            device_address: self.relay_address,
            data: seq![
                spec_u16_hi(RELAY_SET_VALUE_EVENT_CODE),
                spec_u16_lo(RELAY_SET_VALUE_EVENT_CODE),
                spec_u16_hi(self.transmitter_address),
                spec_u16_lo(self.transmitter_address),
                self.index,
            ] + spec_relay_value_bytes(self.value),
        }
    }

    fn try_from_packet(packet: &Packet) -> (r: Result<RelaySetValueEvent, ConvertPacketError>) {
        if packet.is_error {
            return Err(ConvertPacketError::WrongType);
        }

        if packet.data.len() != 6 {
            return Err(ConvertPacketError::WrongSize);
        }

        if u16_from_be(packet.data[0], packet.data[1]) != RELAY_SET_VALUE_EVENT_CODE {
            return Err(ConvertPacketError::Event(EventError::WrongEventType));
        }

        let tail = vstd::slice::slice_subrange(packet.data.as_slice(), 5, packet.data.len());
        let value = match RelayValue::deserialize(tail) {
            Ok(value) => value,
            Err(e) => {
                return Err(e);
            },
        };

        Ok(
            RelaySetValueEvent {
                relay_address: packet.device_address,
                transmitter_address: u16_from_be(packet.data[2], packet.data[3]),
                index: packet.data[4],
                value,
            },
        )
    }

    fn to_packet(&self) -> (r: Packet) {
        let mut data: Vec<u8> = Vec::new();

        data.push(u16_hi(RELAY_SET_VALUE_EVENT_CODE));
        data.push(u16_lo(RELAY_SET_VALUE_EVENT_CODE));
        data.push(u16_hi(self.transmitter_address));
        data.push(u16_lo(self.transmitter_address));
        data.push(self.index);
        let mut value = self.value.serialize();
        data.append(&mut value);

        let packet = Packet { is_error: false, device_address: self.relay_address, data };
        proof {
            assert(packet@.data =~= self.spec_to_packet().data);
            assert(packet@ =~= self.spec_to_packet());
        }
        packet
    }
}

/// Law: decoding an encoded set-value event gives the event back.
pub proof fn lemma_relay_set_value_round_trip(e: RelaySetValueEvent)
    ensures
        RelaySetValueEvent::spec_try_from_packet(e.spec_to_packet()) == Ok::<
            RelaySetValueEvent,
            ConvertPacketError,
        >(e),
{
    lemma_u16_be_round_trip(RELAY_SET_VALUE_EVENT_CODE);
    lemma_u16_be_round_trip(e.transmitter_address);
    let p = e.spec_to_packet();
    assert(p.data.skip(5) =~= spec_relay_value_bytes(e.value));
    lemma_relay_value_round_trip(e.value);
}


/// Flips a relay's state.
#[derive(Debug, Eq, PartialEq, Ord, PartialOrd, Clone, Copy)]
pub struct RelayFlipStateEvent {
    /// The relay module.
    pub relay_address: u16,
    /// The requesting device.
    pub transmitter_address: u16,
    /// Which relay on the module.
    pub index: u8,
}

impl View for RelayFlipStateEvent {
    type V = RelayFlipStateEvent;

    open spec fn view(&self) -> RelayFlipStateEvent {
        *self
    }
}

impl ConvertPacket<RelayFlipStateEvent> for RelayFlipStateEvent {
    open spec fn spec_try_from_packet(packet: PacketModel) -> Result<
        RelayFlipStateEvent,
        ConvertPacketError,
    > {
        if packet.is_error {
            Err(ConvertPacketError::WrongType)
        } else if packet.data.len() != 5 {
            Err(ConvertPacketError::WrongSize)
        } else if spec_u16_from_be(packet.data[0], packet.data[1]) != RELAY_FLIP_STATE_EVENT_CODE {
            Err(ConvertPacketError::Event(EventError::WrongEventType))
        } else {
            Ok(
                RelayFlipStateEvent {
                    relay_address: packet.device_address,
                    transmitter_address: spec_u16_from_be(packet.data[2], packet.data[3]),
                    index: packet.data[4],
                },
            )
        }
    }

    open spec fn spec_to_packet(&self) -> PacketModel {
        PacketModel {
            is_error: false,
            device_address: self.relay_address,
            data: seq![
                spec_u16_hi(RELAY_FLIP_STATE_EVENT_CODE),
                spec_u16_lo(RELAY_FLIP_STATE_EVENT_CODE),
                spec_u16_hi(self.transmitter_address),
                spec_u16_lo(self.transmitter_address),
                self.index,
            ],
        }
    }

    fn try_from_packet(packet: &Packet) -> (r: Result<RelayFlipStateEvent, ConvertPacketError>) {
        if packet.is_error {
            return Err(ConvertPacketError::WrongType);
        }

        if packet.data.len() != 5 {
            return Err(ConvertPacketError::WrongSize);
        }

        if u16_from_be(packet.data[0], packet.data[1]) != RELAY_FLIP_STATE_EVENT_CODE {
            return Err(ConvertPacketError::Event(EventError::WrongEventType));
        }

        let relay_address = packet.device_address;
        let transmitter_address = u16_from_be(packet.data[2], packet.data[3]);
        let index = packet.data[4];

        Ok(RelayFlipStateEvent { relay_address, transmitter_address, index })
    }

    fn to_packet(&self) -> (r: Packet) {
        let mut data: Vec<u8> = Vec::new();

        data.push(u16_hi(RELAY_FLIP_STATE_EVENT_CODE));
        data.push(u16_lo(RELAY_FLIP_STATE_EVENT_CODE));
        data.push(u16_hi(self.transmitter_address));
        data.push(u16_lo(self.transmitter_address));
        data.push(self.index);

        let packet = Packet { is_error: false, device_address: self.relay_address, data };
        proof {
            assert(packet@.data =~= self.spec_to_packet().data);
            assert(packet@ =~= self.spec_to_packet());
        }
        packet
    }
}

/// Law: decoding an encoded flip-state event gives the event back.
pub proof fn lemma_relay_flip_state_round_trip(e: RelayFlipStateEvent)
    ensures
        RelayFlipStateEvent::spec_try_from_packet(e.spec_to_packet()) == Ok::<
            RelayFlipStateEvent,
            ConvertPacketError,
        >(e),
{
    lemma_u16_be_round_trip(RELAY_FLIP_STATE_EVENT_CODE);
    lemma_u16_be_round_trip(e.transmitter_address);
}

} // verus!
