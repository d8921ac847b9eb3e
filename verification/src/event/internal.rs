//! Internal events, raised by a device for itself and never transmitted.

use vstd::prelude::*;

use crate::convert_packet::{ConvertPacket, ConvertPacketError};
use crate::event::event_code::INTERNAL_SYSTEM_TICK_EVENT_CODE;
use crate::event::EventError;
use crate::event::{
    spec_u16_from_be, spec_u16_hi, spec_u16_lo, u16_from_be, u16_hi, u16_lo,
    lemma_u16_be_round_trip,
};
use crate::packet::{Packet, PacketModel};

verus! {

/// A periodic system tick.
#[derive(Debug, Eq, PartialEq, Clone, Copy)]
pub struct SystemTickEvent {
    /// The device the tick is raised for.
    pub receiver_address: u16,
}

impl View for SystemTickEvent {
    type V = SystemTickEvent;

    open spec fn view(&self) -> SystemTickEvent {
        *self
    }
}

impl ConvertPacket<SystemTickEvent> for SystemTickEvent {
    open spec fn spec_try_from_packet(packet: PacketModel) -> Result<
        SystemTickEvent,
        ConvertPacketError,
    > {
        if packet.is_error {
            Err(ConvertPacketError::WrongType)
        } else if packet.data.len() != 2 {
            Err(ConvertPacketError::WrongSize)
        } else if spec_u16_from_be(packet.data[0], packet.data[1])
            != INTERNAL_SYSTEM_TICK_EVENT_CODE {
            Err(ConvertPacketError::Event(EventError::WrongEventType))
        } else {
            Ok(SystemTickEvent { receiver_address: packet.device_address })
        }
    }

    open spec fn spec_to_packet(&self) -> PacketModel {
        PacketModel {
            is_error: false,
            device_address: self.receiver_address,
            data: seq![
                spec_u16_hi(INTERNAL_SYSTEM_TICK_EVENT_CODE),
                spec_u16_lo(INTERNAL_SYSTEM_TICK_EVENT_CODE),
            ],
        }
    }

    fn try_from_packet(packet: &Packet) -> (r: Result<SystemTickEvent, ConvertPacketError>) {
        if packet.is_error {
            return Err(ConvertPacketError::WrongType);
        }

        if packet.data.len() != 2 {
            return Err(ConvertPacketError::WrongSize);
        }

        if u16_from_be(packet.data[0], packet.data[1]) != INTERNAL_SYSTEM_TICK_EVENT_CODE {
            return Err(ConvertPacketError::Event(EventError::WrongEventType));
        }

        Ok(SystemTickEvent { receiver_address: packet.device_address })
    }

    fn to_packet(&self) -> (r: Packet) {
        let mut data: Vec<u8> = Vec::new();

        data.push(u16_hi(INTERNAL_SYSTEM_TICK_EVENT_CODE));
        data.push(u16_lo(INTERNAL_SYSTEM_TICK_EVENT_CODE));

        let packet = Packet { is_error: false, device_address: self.receiver_address, data };
        proof {
            assert(packet@.data =~= self.spec_to_packet().data);
            assert(packet@ =~= self.spec_to_packet());
        }
        packet
    }
}

/// Law: decoding an encoded system tick gives the event back.
pub proof fn lemma_system_tick_round_trip(e: SystemTickEvent)
    ensures
        SystemTickEvent::spec_try_from_packet(e.spec_to_packet()) == Ok::<
            SystemTickEvent,
            ConvertPacketError,
        >(e),
{
    lemma_u16_be_round_trip(INTERNAL_SYSTEM_TICK_EVENT_CODE);
}

} // verus!
