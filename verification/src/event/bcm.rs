//! Brightness-controlled module (dimmer) events.

use vstd::prelude::*;

use crate::convert_packet::{ConvertPacket, ConvertPacketError};
use crate::event::event_code::{BCM_ANIMATE_BRIGHTNESS_EVENT_CODE, BCM_CHANGE_BRIGHTNESS_EVENT_CODE};
use crate::event::EventError;
use crate::event::{
    spec_u16_from_be, spec_u16_hi, spec_u16_lo, spec_u32_byte, spec_u32_from_be, u16_from_be,
    u16_hi, u16_lo, u32_byte, u32_from_be, lemma_u16_be_round_trip, lemma_u32_be_round_trip,
};
use crate::packet::{Packet, PacketModel};

verus! {

/// A brightness value: one channel, RGB, or RGBW.
#[derive(Debug, Copy, Clone, Eq, PartialEq, Ord, PartialOrd)]
pub enum BcmValue {
    /// A single channel's brightness.
    Single(u8),
    /// Red, green and blue brightness.
    Rgb(u8, u8, u8),
    /// Red, green, blue and white brightness.
    Rgbw(u8, u8, u8, u8),
}

/// The tagged on-wire bytes of a brightness value.
pub open spec fn spec_bcm_value_bytes(v: BcmValue) -> Seq<u8> {
    match v {
        BcmValue::Single(value) => seq![0x00u8, value],
        BcmValue::Rgb(red, green, blue) => seq![0x01u8, red, green, blue],
        BcmValue::Rgbw(red, green, blue, white) => seq![0x02u8, red, green, blue, white],
    }
}

/// What decoding a brightness value from bytes yields: dispatch on the
/// tag byte, with the exact length each tag demands.
pub open spec fn spec_bcm_value_from_bytes(data: Seq<u8>) -> Result<BcmValue, ConvertPacketError> {
    if data.len() < 2 {
        Err(ConvertPacketError::WrongSize)
    } else if data[0] == 0x00 {
        if data.len() != 2 {
            Err(ConvertPacketError::WrongSize)
        } else {
            Ok(BcmValue::Single(data[1]))
        }
    } else if data[0] == 0x01 {
        if data.len() != 4 {
            Err(ConvertPacketError::WrongSize)
        } else {
            Ok(BcmValue::Rgb(data[1], data[2], data[3]))
        }
    } else if data[0] == 0x02 {
        if data.len() != 5 {
            Err(ConvertPacketError::WrongSize)
        } else {
            Ok(BcmValue::Rgbw(data[1], data[2], data[3], data[4]))
        }
    } else {
        Err(ConvertPacketError::UnknownEnumVariant)
    }
}

impl BcmValue {
    /// Writes the value as its tagged on-wire bytes.
    fn serialize(self) -> (r: Vec<u8>)
        ensures
            r@ == spec_bcm_value_bytes(self),
    {
        let mut data: Vec<u8> = Vec::new();
        match self {
            Self::Single(value) => {
                data.push(0x00);
                data.push(value);
            },
            Self::Rgb(red, green, blue) => {
                data.push(0x01);
                data.push(red);
                data.push(green);
                data.push(blue);
            },
            Self::Rgbw(red, green, blue, white) => {
                data.push(0x02);
                data.push(red);
                data.push(green);
                data.push(blue);
                data.push(white);
            },
        }
        proof {
            assert(data@ =~= spec_bcm_value_bytes(self));
        }
        data
    }

    /// Reads a value from its tagged on-wire bytes.
    fn deserialize(data: &[u8]) -> (r: Result<Self, ConvertPacketError>)
        ensures
            r == spec_bcm_value_from_bytes(data@),
    {
        if data.len() < 2 {
            return Err(ConvertPacketError::WrongSize);
        }

        if data[0] == 0x00 {
            if data.len() != 2 {
                return Err(ConvertPacketError::WrongSize);
            }
            Ok(Self::Single(data[1]))
        } else if data[0] == 0x01 {
            if data.len() != 4 {
                return Err(ConvertPacketError::WrongSize);
            }
            Ok(Self::Rgb(data[1], data[2], data[3]))
        } else if data[0] == 0x02 {
            if data.len() != 5 {
                return Err(ConvertPacketError::WrongSize);
            }
            Ok(Self::Rgbw(data[1], data[2], data[3], data[4]))
        } else {
            Err(ConvertPacketError::UnknownEnumVariant)
        }
    }
}

/// Law: decoding an encoded brightness value gives the value back.
pub proof fn lemma_bcm_value_round_trip(v: BcmValue)
    ensures
        spec_bcm_value_from_bytes(spec_bcm_value_bytes(v)) == Ok::<BcmValue, ConvertPacketError>(v),
{
}

/// Sets a dimmer channel's brightness.
#[derive(Debug, Eq, PartialEq, Ord, PartialOrd, Clone, Copy)]
pub struct BcmChangeBrightnessEvent {
    /// The dimmer module.
    pub bcm_address: u16,
    /// The requesting device.
    pub transmitter_address: u16,
    /// Which channel group on the module.
    pub index: u8,
    /// The brightness to set.
    pub value: BcmValue,
}

impl View for BcmChangeBrightnessEvent {
    type V = BcmChangeBrightnessEvent;

    open spec fn view(&self) -> BcmChangeBrightnessEvent {
        *self
    }
}

impl ConvertPacket<BcmChangeBrightnessEvent> for BcmChangeBrightnessEvent {
    open spec fn spec_try_from_packet(packet: PacketModel) -> Result<
        BcmChangeBrightnessEvent,
        ConvertPacketError,
    > {
        if packet.is_error {
            Err(ConvertPacketError::WrongType)
        } else if packet.data.len() < 7 {
            Err(ConvertPacketError::WrongSize)
        } else if spec_u16_from_be(packet.data[0], packet.data[1])
            != BCM_CHANGE_BRIGHTNESS_EVENT_CODE {
            Err(ConvertPacketError::Event(EventError::WrongEventType))
        } else {
            match spec_bcm_value_from_bytes(packet.data.skip(5)) {
                Ok(value) => Ok(
                    BcmChangeBrightnessEvent {
                        bcm_address: packet.device_address,
                        transmitter_address: spec_u16_from_be(packet.data[2], packet.data[3]),
                        index: packet.data[4],
                        value,
                    },
                ),
                Err(e) => Err(e),
            }
        }
    }

    open spec fn spec_to_packet(&self) -> PacketModel {
        PacketModel {
            is_error: false,
            device_address: self.bcm_address,
            data: seq![
                spec_u16_hi(BCM_CHANGE_BRIGHTNESS_EVENT_CODE),
                spec_u16_lo(BCM_CHANGE_BRIGHTNESS_EVENT_CODE),
                spec_u16_hi(self.transmitter_address),
                spec_u16_lo(self.transmitter_address),
                self.index,
            ] + spec_bcm_value_bytes(self.value),
        }
    }

    fn try_from_packet(packet: &Packet) -> (r: Result<
        BcmChangeBrightnessEvent,
        ConvertPacketError,
    >) {
        if packet.is_error {
            return Err(ConvertPacketError::WrongType);
        }

        if packet.data.len() < 7 {
            return Err(ConvertPacketError::WrongSize);
        }

        if u16_from_be(packet.data[0], packet.data[1]) != BCM_CHANGE_BRIGHTNESS_EVENT_CODE {
            return Err(ConvertPacketError::Event(EventError::WrongEventType));
        }

        let tail = vstd::slice::slice_subrange(packet.data.as_slice(), 5, packet.data.len());
        let value = match BcmValue::deserialize(tail) {
            Ok(value) => value,
            Err(e) => {
                return Err(e);
            },
        };

        Ok(
            BcmChangeBrightnessEvent {
                bcm_address: packet.device_address,
                transmitter_address: u16_from_be(packet.data[2], packet.data[3]),
                index: packet.data[4],
                value,
            },
        )
    }

    fn to_packet(&self) -> (r: Packet) {
        let mut data: Vec<u8> = Vec::new();

        data.push(u16_hi(BCM_CHANGE_BRIGHTNESS_EVENT_CODE));
        data.push(u16_lo(BCM_CHANGE_BRIGHTNESS_EVENT_CODE));
        data.push(u16_hi(self.transmitter_address));
        data.push(u16_lo(self.transmitter_address));
        data.push(self.index);
        let mut value = self.value.serialize();
        data.append(&mut value);

        let packet = Packet { is_error: false, device_address: self.bcm_address, data };
        proof {
            assert(packet@.data =~= self.spec_to_packet().data);
            assert(packet@ =~= self.spec_to_packet());
        }
        packet
    }
}

/// Law: decoding an encoded change-brightness event gives the event
/// back.
pub proof fn lemma_bcm_change_brightness_round_trip(e: BcmChangeBrightnessEvent)
    ensures
        BcmChangeBrightnessEvent::spec_try_from_packet(e.spec_to_packet()) == Ok::<
            BcmChangeBrightnessEvent,
            ConvertPacketError,
        >(e),
{
    lemma_u16_be_round_trip(BCM_CHANGE_BRIGHTNESS_EVENT_CODE);
    lemma_u16_be_round_trip(e.transmitter_address);
    let p = e.spec_to_packet();
    assert(p.data.skip(5) =~= spec_bcm_value_bytes(e.value));
    lemma_bcm_value_round_trip(e.value);
}

/// Animates a dimmer channel's brightness towards a target over a
/// duration.
#[derive(Debug, Eq, PartialEq, Ord, PartialOrd, Clone, Copy)]
pub struct BcmAnimateBrightnessEvent {
    /// The dimmer module.
    pub bcm_address: u16,
    /// The requesting device.
    pub transmitter_address: u16,
    /// Which channel group on the module.
    pub index: u8,
    /// Animation duration in milliseconds.
    pub duration: u32,
    /// The brightness to reach.
    pub target_value: BcmValue,
}

impl View for BcmAnimateBrightnessEvent {
    type V = BcmAnimateBrightnessEvent;

    open spec fn view(&self) -> BcmAnimateBrightnessEvent {
        *self
    }
}

impl ConvertPacket<BcmAnimateBrightnessEvent> for BcmAnimateBrightnessEvent {
    open spec fn spec_try_from_packet(packet: PacketModel) -> Result<
        BcmAnimateBrightnessEvent,
        ConvertPacketError,
    > {
        if packet.is_error {
            Err(ConvertPacketError::WrongType)
        } else if packet.data.len() < 11 {
            Err(ConvertPacketError::WrongSize)
        } else if spec_u16_from_be(packet.data[0], packet.data[1])
            != BCM_ANIMATE_BRIGHTNESS_EVENT_CODE {
            Err(ConvertPacketError::Event(EventError::WrongEventType))
        } else {
            match spec_bcm_value_from_bytes(packet.data.skip(9)) {
                Ok(target_value) => Ok(
                    BcmAnimateBrightnessEvent {
                        bcm_address: packet.device_address,
                        transmitter_address: spec_u16_from_be(packet.data[2], packet.data[3]),
                        index: packet.data[4],
                        duration: spec_u32_from_be(
                            packet.data[5],
                            packet.data[6],
                            packet.data[7],
                            packet.data[8],
                        ),
                        target_value,
                    },
                ),
                Err(e) => Err(e),
            }
        }
    }

    open spec fn spec_to_packet(&self) -> PacketModel {
        PacketModel {
            is_error: false,
            device_address: self.bcm_address,
            data: seq![
                spec_u16_hi(BCM_ANIMATE_BRIGHTNESS_EVENT_CODE),
                spec_u16_lo(BCM_ANIMATE_BRIGHTNESS_EVENT_CODE),
                spec_u16_hi(self.transmitter_address),
                spec_u16_lo(self.transmitter_address),
                self.index,
                spec_u32_byte(self.duration, 0),
                spec_u32_byte(self.duration, 1),
                spec_u32_byte(self.duration, 2),
                spec_u32_byte(self.duration, 3),
            ] + spec_bcm_value_bytes(self.target_value),
        }
    }

    fn try_from_packet(packet: &Packet) -> (r: Result<
        BcmAnimateBrightnessEvent,
        ConvertPacketError,
    >) {
        if packet.is_error {
            return Err(ConvertPacketError::WrongType);
        }

        if packet.data.len() < 11 {
            return Err(ConvertPacketError::WrongSize);
        }

        if u16_from_be(packet.data[0], packet.data[1]) != BCM_ANIMATE_BRIGHTNESS_EVENT_CODE {
            return Err(ConvertPacketError::Event(EventError::WrongEventType));
        }

        let tail = vstd::slice::slice_subrange(packet.data.as_slice(), 9, packet.data.len());
        let target_value = match BcmValue::deserialize(tail) {
            Ok(value) => value,
            Err(e) => {
                return Err(e);
            },
        };

        Ok(
            BcmAnimateBrightnessEvent {
                bcm_address: packet.device_address,
                transmitter_address: u16_from_be(packet.data[2], packet.data[3]),
                index: packet.data[4],
                duration: u32_from_be(
                    packet.data[5],
                    packet.data[6],
                    packet.data[7],
                    packet.data[8],
                ),
                target_value,
            },
        )
    }

    fn to_packet(&self) -> (r: Packet) {
        let mut data: Vec<u8> = Vec::new();

        data.push(u16_hi(BCM_ANIMATE_BRIGHTNESS_EVENT_CODE));
        data.push(u16_lo(BCM_ANIMATE_BRIGHTNESS_EVENT_CODE));
        data.push(u16_hi(self.transmitter_address));
        data.push(u16_lo(self.transmitter_address));
        data.push(self.index);
        data.push(u32_byte(self.duration, 0));
        data.push(u32_byte(self.duration, 1));
        data.push(u32_byte(self.duration, 2));
        data.push(u32_byte(self.duration, 3));
        let mut value = self.target_value.serialize();
        data.append(&mut value);

        let packet = Packet { is_error: false, device_address: self.bcm_address, data };
        proof {
            assert(packet@.data =~= self.spec_to_packet().data);
            assert(packet@ =~= self.spec_to_packet());
        }
        packet
    }
}

/// Law: decoding an encoded animate-brightness event gives the event
/// back.
pub proof fn lemma_bcm_animate_brightness_round_trip(e: BcmAnimateBrightnessEvent)
    ensures
        BcmAnimateBrightnessEvent::spec_try_from_packet(e.spec_to_packet()) == Ok::<
            BcmAnimateBrightnessEvent,
            ConvertPacketError,
        >(e),
{
    lemma_u16_be_round_trip(BCM_ANIMATE_BRIGHTNESS_EVENT_CODE);
    lemma_u16_be_round_trip(e.transmitter_address);
    lemma_u32_be_round_trip(e.duration);
    let p = e.spec_to_packet();
    assert(p.data.skip(9) =~= spec_bcm_value_bytes(e.target_value));
    lemma_bcm_value_round_trip(e.target_value);
}

} // verus!
