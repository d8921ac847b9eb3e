//! Button panel events.

use vstd::prelude::*;

use crate::convert_packet::{ConvertPacket, ConvertPacketError};
use crate::event::event_code::{BUTTON_PRESSED_EVENT_CODE, BUTTON_RELEASED_EVENT_CODE};
use crate::event::EventError;
use crate::event::{
    spec_u16_from_be, spec_u16_hi, spec_u16_lo, u16_from_be, u16_hi, u16_lo,
    lemma_u16_be_round_trip,
};
use crate::packet::{Packet, PacketModel};

verus! {

/// A button was pressed.
#[derive(Debug, Eq, PartialEq, Ord, PartialOrd, Clone, Copy)]
pub struct ButtonPressedEvent {
    /// The device the event is addressed to.
    pub receiver_address: u16,
    /// The button panel.
    pub button_address: u16,
    /// Which button on the panel.
    pub index: u8,
}

impl View for ButtonPressedEvent {
    type V = ButtonPressedEvent;

    open spec fn view(&self) -> ButtonPressedEvent {
        *self
    }
}

impl ConvertPacket<ButtonPressedEvent> for ButtonPressedEvent {
    open spec fn spec_try_from_packet(packet: PacketModel) -> Result<
        ButtonPressedEvent,
        ConvertPacketError,
    > {
        if packet.is_error {
            Err(ConvertPacketError::WrongType)
        } else if packet.data.len() != 5 {
            Err(ConvertPacketError::WrongSize)
        } else if spec_u16_from_be(packet.data[0], packet.data[1]) != BUTTON_PRESSED_EVENT_CODE {
            Err(ConvertPacketError::Event(EventError::WrongEventType))
        } else {
            Ok(
                ButtonPressedEvent {
                    receiver_address: packet.device_address,
                    button_address: spec_u16_from_be(packet.data[2], packet.data[3]),
                    index: packet.data[4],
                },
            )
        }
    }

    open spec fn spec_to_packet(&self) -> PacketModel {
        PacketModel {
            is_error: false,
            device_address: self.receiver_address,
            data: seq![
                spec_u16_hi(BUTTON_PRESSED_EVENT_CODE),
                spec_u16_lo(BUTTON_PRESSED_EVENT_CODE),
                spec_u16_hi(self.button_address),
                spec_u16_lo(self.button_address),
                self.index,
            ],
        }
    }

    fn try_from_packet(packet: &Packet) -> (r: Result<ButtonPressedEvent, ConvertPacketError>) {
        if packet.is_error {
            return Err(ConvertPacketError::WrongType);
        }

        if packet.data.len() != 5 {
            return Err(ConvertPacketError::WrongSize);
        }

        if u16_from_be(packet.data[0], packet.data[1]) != BUTTON_PRESSED_EVENT_CODE {
            return Err(ConvertPacketError::Event(EventError::WrongEventType));
        }

        let receiver_address = packet.device_address;
        let button_address = u16_from_be(packet.data[2], packet.data[3]);
        let index = packet.data[4];

        Ok(ButtonPressedEvent { receiver_address, button_address, index })
    }

    fn to_packet(&self) -> (r: Packet) {
        let mut data: Vec<u8> = Vec::new();

        data.push(u16_hi(BUTTON_PRESSED_EVENT_CODE));
        data.push(u16_lo(BUTTON_PRESSED_EVENT_CODE));
        data.push(u16_hi(self.button_address));
        data.push(u16_lo(self.button_address));
        data.push(self.index);

        let packet = Packet { is_error: false, device_address: self.receiver_address, data };
        proof {
            assert(packet@.data =~= self.spec_to_packet().data);
            assert(packet@ =~= self.spec_to_packet());
        }
        packet
    }
}

/// Law: decoding an encoded button-pressed event gives the event back.
pub proof fn lemma_button_pressed_round_trip(e: ButtonPressedEvent)
    ensures
        ButtonPressedEvent::spec_try_from_packet(e.spec_to_packet()) == Ok::<
            ButtonPressedEvent,
            ConvertPacketError,
        >(e),
{
    lemma_u16_be_round_trip(BUTTON_PRESSED_EVENT_CODE);
    lemma_u16_be_round_trip(e.button_address);
}

/// A button was released.
#[derive(Debug, Eq, PartialEq, Ord, PartialOrd, Clone, Copy)]
pub struct ButtonReleasedEvent {
    /// The device the event is addressed to.
    pub receiver_address: u16,
    /// The button panel.
    pub button_address: u16,
    /// Which button on the panel.
    pub index: u8,
}

impl View for ButtonReleasedEvent {
    type V = ButtonReleasedEvent;

    open spec fn view(&self) -> ButtonReleasedEvent {
        *self
    }
}

impl ConvertPacket<ButtonReleasedEvent> for ButtonReleasedEvent {
    open spec fn spec_try_from_packet(packet: PacketModel) -> Result<
        ButtonReleasedEvent,
        ConvertPacketError,
    > {
        if packet.is_error {
            Err(ConvertPacketError::WrongType)
        } else if packet.data.len() != 5 {
            Err(ConvertPacketError::WrongSize)
        } else if spec_u16_from_be(packet.data[0], packet.data[1]) != BUTTON_RELEASED_EVENT_CODE {
            Err(ConvertPacketError::Event(EventError::WrongEventType))
        } else {
            Ok(
                ButtonReleasedEvent {
                    receiver_address: packet.device_address,
                    button_address: spec_u16_from_be(packet.data[2], packet.data[3]),
                    index: packet.data[4],
                },
            )
        }
    }

    open spec fn spec_to_packet(&self) -> PacketModel {
        PacketModel {
            is_error: false,
            device_address: self.receiver_address,
            data: seq![
                spec_u16_hi(BUTTON_RELEASED_EVENT_CODE),
                spec_u16_lo(BUTTON_RELEASED_EVENT_CODE),
                spec_u16_hi(self.button_address),
                spec_u16_lo(self.button_address),
                self.index,
            ],
        }
    }

    fn try_from_packet(packet: &Packet) -> (r: Result<ButtonReleasedEvent, ConvertPacketError>) {
        if packet.is_error {
            return Err(ConvertPacketError::WrongType);
        }

        if packet.data.len() != 5 {
            return Err(ConvertPacketError::WrongSize);
        }

        if u16_from_be(packet.data[0], packet.data[1]) != BUTTON_RELEASED_EVENT_CODE {
            return Err(ConvertPacketError::Event(EventError::WrongEventType));
        }

        let receiver_address = packet.device_address;
        let button_address = u16_from_be(packet.data[2], packet.data[3]);
        let index = packet.data[4];

        Ok(ButtonReleasedEvent { receiver_address, button_address, index })
    }

    fn to_packet(&self) -> (r: Packet) {
        let mut data: Vec<u8> = Vec::new();

        data.push(u16_hi(BUTTON_RELEASED_EVENT_CODE));
        data.push(u16_lo(BUTTON_RELEASED_EVENT_CODE));
        data.push(u16_hi(self.button_address));
        data.push(u16_lo(self.button_address));
        data.push(self.index);

        let packet = Packet { is_error: false, device_address: self.receiver_address, data };
        proof {
            assert(packet@.data =~= self.spec_to_packet().data);
            assert(packet@ =~= self.spec_to_packet());
        }
        packet
    }
}

/// Law: decoding an encoded button-released event gives the event back.
pub proof fn lemma_button_released_round_trip(e: ButtonReleasedEvent)
    ensures
        ButtonReleasedEvent::spec_try_from_packet(e.spec_to_packet()) == Ok::<
            ButtonReleasedEvent,
            ConvertPacketError,
        >(e),
{
    lemma_u16_be_round_trip(BUTTON_RELEASED_EVENT_CODE);
    lemma_u16_be_round_trip(e.button_address);
}

} // verus!
