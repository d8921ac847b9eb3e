//! Free-form typed messages between devices.

use vstd::prelude::*;

use crate::convert_packet::{ConvertPacket, ConvertPacketError};
use crate::event::event_code::MESSAGE_EVENT_CODE;
use crate::event::EventError;
use crate::event::{
    spec_u16_from_be, spec_u16_hi, spec_u16_lo, spec_u32_byte, spec_u32_from_be, u16_from_be,
    u16_hi, u16_lo, u32_byte, u32_from_be, lemma_u16_be_round_trip, lemma_u32_be_round_trip,
};
use crate::packet::{Packet, PacketModel};

verus! {

/// A message's payload: a tagged number or truth value, big-endian on
/// the wire.
#[derive(Debug, PartialEq, Eq, Clone, Copy)]
pub enum MessageValue {
    /// An 8-bit value.
    U8(u8),
    /// A 16-bit value.
    U16(u16),
    /// A 32-bit value.
    U32(u32),
    /// A truth value.
    Bool(bool),
}

/// The tagged on-wire bytes of a message value: the tag byte picks the
/// payload width.
pub open spec fn spec_message_value_bytes(v: MessageValue) -> Seq<u8> {
    match v {
        MessageValue::U8(value) => seq![0x00u8, value],
        MessageValue::U16(value) => seq![0x01u8, spec_u16_hi(value), spec_u16_lo(value)],
        MessageValue::U32(value) => seq![
            0x02u8,
            spec_u32_byte(value, 0),
            spec_u32_byte(value, 1),
            spec_u32_byte(value, 2),
            spec_u32_byte(value, 3),
        ],
        MessageValue::Bool(value) => seq![0x03u8, if value { 0x01u8 } else { 0x00u8 }],
    }
}

/// What decoding a message value from bytes yields: dispatch on the tag
/// byte, with the exact length each tag demands; any nonzero byte reads
/// as true.
pub open spec fn spec_message_value_from_bytes(data: Seq<u8>) -> Result<
    MessageValue,
    ConvertPacketError,
> {
    if data.len() < 2 {
        Err(ConvertPacketError::WrongSize)
    } else if data[0] == 0x00 {
        if data.len() != 2 {
            Err(ConvertPacketError::WrongSize)
        } else {
            Ok(MessageValue::U8(data[1]))
        }
    } else if data[0] == 0x01 {
        if data.len() != 3 {
            Err(ConvertPacketError::WrongSize)
        } else {
            Ok(MessageValue::U16(spec_u16_from_be(data[1], data[2])))
        }
    } else if data[0] == 0x02 {
        if data.len() != 5 {
            Err(ConvertPacketError::WrongSize)
        } else {
            Ok(MessageValue::U32(spec_u32_from_be(data[1], data[2], data[3], data[4])))
        }
    } else if data[0] == 0x03 {
        if data.len() != 2 {
            Err(ConvertPacketError::WrongSize)
        } else {
            Ok(MessageValue::Bool(data[1] != 0))
        }
    } else {
        Err(ConvertPacketError::UnknownEnumVariant)
    }
}

impl MessageValue {
    /// Writes the value as its tagged on-wire bytes.
    fn serialize(self) -> (r: Vec<u8>)
        ensures
            r@ == spec_message_value_bytes(self),
    {
        let mut data: Vec<u8> = Vec::new();
        match self {
            Self::U8(value) => {
                data.push(0x00);
                data.push(value);
            },
            Self::U16(value) => {
                data.push(0x01);
                data.push(u16_hi(value));
                data.push(u16_lo(value));
            },
            Self::U32(value) => {
                data.push(0x02);
                data.push(u32_byte(value, 0));
                data.push(u32_byte(value, 1));
                data.push(u32_byte(value, 2));
                data.push(u32_byte(value, 3));
            },
            Self::Bool(value) => {
                data.push(0x03);
                data.push(
                    if value {
                        0x01
                    } else {
                        0x00
                    },
                );
            },
        }
        proof {
            assert(data@ =~= spec_message_value_bytes(self));
        }
        data
    }

    /// Reads a value from its tagged on-wire bytes.
    fn deserialize(data: &[u8]) -> (r: Result<Self, ConvertPacketError>)
        ensures
            r == spec_message_value_from_bytes(data@),
    {
        if data.len() < 2 {
            return Err(ConvertPacketError::WrongSize);
        }

        if data[0] == 0x00 {
            if data.len() != 2 {
                return Err(ConvertPacketError::WrongSize);
            }
            Ok(Self::U8(data[1]))
        } else if data[0] == 0x01 {
            if data.len() != 3 {
                return Err(ConvertPacketError::WrongSize);
            }
            Ok(Self::U16(u16_from_be(data[1], data[2])))
        } else if data[0] == 0x02 {
            if data.len() != 5 {
                return Err(ConvertPacketError::WrongSize);
            }
            Ok(Self::U32(u32_from_be(data[1], data[2], data[3], data[4])))
        } else if data[0] == 0x03 {
            if data.len() != 2 {
                return Err(ConvertPacketError::WrongSize);
            }
            Ok(Self::Bool(data[1] != 0))
        } else {
            Err(ConvertPacketError::UnknownEnumVariant)
        }
    }
}

/// Law: decoding an encoded message value gives the value back.
pub proof fn lemma_message_value_round_trip(v: MessageValue)
    ensures
        spec_message_value_from_bytes(spec_message_value_bytes(v)) == Ok::<
            MessageValue,
            ConvertPacketError,
        >(v),
{
    match v {
        MessageValue::U16(value) => {
            lemma_u16_be_round_trip(value);
        },
        MessageValue::U32(value) => {
            lemma_u32_be_round_trip(value);
        },
        _ => {
        },
    }
}

/// A typed message from one device to another.
#[derive(Debug, PartialEq, Eq, Clone, Copy)]
pub struct MessageEvent {
    /// The device the message is addressed to.
    pub receiver_address: u16,
    /// The transmitting device.
    pub transmitter_address: u16,
    /// An application-defined message code.
    pub code: u16,
    /// The message's payload.
    pub value: MessageValue,
}

impl View for MessageEvent {
    type V = MessageEvent;

    open spec fn view(&self) -> MessageEvent {
        *self
    }
}

impl ConvertPacket<MessageEvent> for MessageEvent {
    open spec fn spec_try_from_packet(packet: PacketModel) -> Result<
        MessageEvent,
        ConvertPacketError,
    > {
        if packet.is_error {
            Err(ConvertPacketError::WrongType)
        } else if packet.data.len() < 8 {
            Err(ConvertPacketError::WrongSize)
        } else if spec_u16_from_be(packet.data[0], packet.data[1]) != MESSAGE_EVENT_CODE {
            Err(ConvertPacketError::Event(EventError::WrongEventType))
        } else {
            match spec_message_value_from_bytes(packet.data.skip(6)) {
                Ok(value) => Ok(
                    MessageEvent {
                        receiver_address: packet.device_address,
                        transmitter_address: spec_u16_from_be(packet.data[2], packet.data[3]),
                        code: spec_u16_from_be(packet.data[4], packet.data[5]),
                        value,
                    },
                ),
                Err(e) => Err(e),
            }
        }
    }

    open spec fn spec_to_packet(&self) -> PacketModel {
        PacketModel {
            is_error: false,
            device_address: self.receiver_address,
            data: seq![
                spec_u16_hi(MESSAGE_EVENT_CODE),
                spec_u16_lo(MESSAGE_EVENT_CODE),
                spec_u16_hi(self.transmitter_address),
                spec_u16_lo(self.transmitter_address),
                spec_u16_hi(self.code),
                spec_u16_lo(self.code),
            ] + spec_message_value_bytes(self.value),
        }
    }

    fn try_from_packet(packet: &Packet) -> (r: Result<MessageEvent, ConvertPacketError>) {
        if packet.is_error {
            return Err(ConvertPacketError::WrongType);
        }

        if packet.data.len() < 8 {
            return Err(ConvertPacketError::WrongSize);
        }

        if u16_from_be(packet.data[0], packet.data[1]) != MESSAGE_EVENT_CODE {
            return Err(ConvertPacketError::Event(EventError::WrongEventType));
        }

        let tail = vstd::slice::slice_subrange(packet.data.as_slice(), 6, packet.data.len());
        let value = match MessageValue::deserialize(tail) {
            Ok(value) => value,
            Err(e) => {
                return Err(e);
            },
        };

        Ok(
            MessageEvent {
                receiver_address: packet.device_address,
                transmitter_address: u16_from_be(packet.data[2], packet.data[3]),
                code: u16_from_be(packet.data[4], packet.data[5]),
                value,
            },
        )
    }

    fn to_packet(&self) -> (r: Packet) {
        let mut data: Vec<u8> = Vec::new();

        data.push(u16_hi(MESSAGE_EVENT_CODE));
        data.push(u16_lo(MESSAGE_EVENT_CODE));
        data.push(u16_hi(self.transmitter_address));
        data.push(u16_lo(self.transmitter_address));
        data.push(u16_hi(self.code));
        data.push(u16_lo(self.code));
        let mut value = self.value.serialize();
        data.append(&mut value);

        let packet = Packet { is_error: false, device_address: self.receiver_address, data };
        proof {
            assert(packet@.data =~= self.spec_to_packet().data);
            assert(packet@ =~= self.spec_to_packet());
        }
        packet
    }
}

/// Law: decoding an encoded message gives the message back.
pub proof fn lemma_message_round_trip(e: MessageEvent)
    ensures
        MessageEvent::spec_try_from_packet(e.spec_to_packet()) == Ok::<
            MessageEvent,
            ConvertPacketError,
        >(e),
{
    lemma_u16_be_round_trip(MESSAGE_EVENT_CODE);
    lemma_u16_be_round_trip(e.transmitter_address);
    lemma_u16_be_round_trip(e.code);
    let p = e.spec_to_packet();
    assert(p.data.skip(6) =~= spec_message_value_bytes(e.value));
    lemma_message_value_round_trip(e.value);
}

} // verus!
