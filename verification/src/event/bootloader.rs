//! The bootloader's events.

use vstd::prelude::*;

use crate::convert_packet::{ConvertPacket, ConvertPacketError};
use crate::event::event_code::BOOTLOADER_HELLO_EVENT_CODE;
use crate::event::EventError;
use crate::event::{
    spec_u16_from_be, spec_u16_hi, spec_u16_lo, u16_from_be, u16_hi, u16_lo,
    lemma_u16_be_round_trip,
};
use crate::packet::{Packet, PacketModel};

verus! {

/// A bootloader announcing itself to a programmer.
#[derive(Debug, Eq, PartialEq, Ord, PartialOrd, Clone, Copy)]
pub struct BootloaderHelloEvent {
    /// The programmer the bootloader answers to.
    pub programmer_address: u16,
    /// The announcing bootloader.
    pub bootloader_address: u16,
}

impl View for BootloaderHelloEvent {
    type V = BootloaderHelloEvent;

    open spec fn view(&self) -> BootloaderHelloEvent {
        *self
    }
}

impl ConvertPacket<BootloaderHelloEvent> for BootloaderHelloEvent {
    open spec fn spec_try_from_packet(packet: PacketModel) -> Result<
        BootloaderHelloEvent,
        ConvertPacketError,
    > {
        if packet.is_error {
            Err(ConvertPacketError::WrongType)
        } else if packet.data.len() != 4 {
            Err(ConvertPacketError::WrongSize)
        } else if spec_u16_from_be(packet.data[0], packet.data[1])
            != BOOTLOADER_HELLO_EVENT_CODE {
            Err(ConvertPacketError::Event(EventError::WrongEventType))
        } else {
            Ok(
                BootloaderHelloEvent {
                    programmer_address: packet.device_address,
                    bootloader_address: spec_u16_from_be(packet.data[2], packet.data[3]),
                },
            )
        }
    }

    open spec fn spec_to_packet(&self) -> PacketModel {
        PacketModel {
            is_error: false,
            device_address: self.programmer_address,
            data: seq![
                spec_u16_hi(BOOTLOADER_HELLO_EVENT_CODE),
                spec_u16_lo(BOOTLOADER_HELLO_EVENT_CODE),
                spec_u16_hi(self.bootloader_address),
                spec_u16_lo(self.bootloader_address),
            ],
        }
    }

    fn try_from_packet(packet: &Packet) -> (r: Result<BootloaderHelloEvent, ConvertPacketError>) {
        if packet.is_error {
            return Err(ConvertPacketError::WrongType);
        }

        if packet.data.len() != 4 {
            return Err(ConvertPacketError::WrongSize);
        }

        if u16_from_be(packet.data[0], packet.data[1]) != BOOTLOADER_HELLO_EVENT_CODE {
            return Err(ConvertPacketError::Event(EventError::WrongEventType));
        }

        let programmer_address = packet.device_address;
        let bootloader_address = u16_from_be(packet.data[2], packet.data[3]);

        Ok(BootloaderHelloEvent { programmer_address, bootloader_address })
    }

    fn to_packet(&self) -> (r: Packet) {
        let mut data: Vec<u8> = Vec::new();

        data.push(u16_hi(BOOTLOADER_HELLO_EVENT_CODE));
        data.push(u16_lo(BOOTLOADER_HELLO_EVENT_CODE));
        data.push(u16_hi(self.bootloader_address));
        data.push(u16_lo(self.bootloader_address));

        let packet = Packet { is_error: false, device_address: self.programmer_address, data };
        proof {
            assert(packet@.data =~= self.spec_to_packet().data);
            assert(packet@ =~= self.spec_to_packet());
        }
        packet
    }
}

/// Law: decoding an encoded bootloader hello gives the event back.
pub proof fn lemma_bootloader_hello_round_trip(e: BootloaderHelloEvent)
    ensures
        BootloaderHelloEvent::spec_try_from_packet(e.spec_to_packet()) == Ok::<
            BootloaderHelloEvent,
            ConvertPacketError,
        >(e),
{
    lemma_u16_be_round_trip(BOOTLOADER_HELLO_EVENT_CODE);
    lemma_u16_be_round_trip(e.bootloader_address);
}

} // verus!
