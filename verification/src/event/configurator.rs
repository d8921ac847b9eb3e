//! The configurator tool's events.

use vstd::prelude::*;

use crate::convert_packet::{ConvertPacket, ConvertPacketError};
use crate::event::event_code::CONFIGURATOR_HELLO_EVENT_CODE;
use crate::event::EventError;
use crate::event::{
    spec_u16_from_be, spec_u16_hi, spec_u16_lo, u16_from_be, u16_hi, u16_lo,
    lemma_u16_be_round_trip,
};
use crate::packet::{Packet, PacketModel};
use crate::protocol::BROADCAST_ADDRESS;

verus! {

/// A configurator announcing itself to every device on the bus.
#[derive(Debug, Eq, PartialEq, Clone, Copy)]
pub struct ConfiguratorHelloEvent {}

impl View for ConfiguratorHelloEvent {
    type V = ConfiguratorHelloEvent;

    open spec fn view(&self) -> ConfiguratorHelloEvent {
        *self
    }
}

impl ConvertPacket<ConfiguratorHelloEvent> for ConfiguratorHelloEvent {
    open spec fn spec_try_from_packet(packet: PacketModel) -> Result<
        ConfiguratorHelloEvent,
        ConvertPacketError,
    > {
        if packet.is_error {
            Err(ConvertPacketError::WrongType)
        } else if packet.data.len() != 2 {
            Err(ConvertPacketError::WrongSize)
        } else if spec_u16_from_be(packet.data[0], packet.data[1])
            != CONFIGURATOR_HELLO_EVENT_CODE {
            Err(ConvertPacketError::Event(EventError::WrongEventType))
        } else {
            Ok(ConfiguratorHelloEvent {  })
        }
    }

    open spec fn spec_to_packet(&self) -> PacketModel {
        PacketModel {
            is_error: false,
            device_address: BROADCAST_ADDRESS,
            data: seq![
                spec_u16_hi(CONFIGURATOR_HELLO_EVENT_CODE),
                spec_u16_lo(CONFIGURATOR_HELLO_EVENT_CODE),
            ],
        }
    }

    fn try_from_packet(packet: &Packet) -> (r: Result<
        ConfiguratorHelloEvent,
        ConvertPacketError,
    >) {
        if packet.is_error {
            return Err(ConvertPacketError::WrongType);
        }

        if packet.data.len() != 2 {
            return Err(ConvertPacketError::WrongSize);
        }

        if u16_from_be(packet.data[0], packet.data[1]) != CONFIGURATOR_HELLO_EVENT_CODE {
            return Err(ConvertPacketError::Event(EventError::WrongEventType));
        }

        Ok(ConfiguratorHelloEvent {  })
    }

    fn to_packet(&self) -> (r: Packet) {
        let mut data: Vec<u8> = Vec::new();

        data.push(u16_hi(CONFIGURATOR_HELLO_EVENT_CODE));
        data.push(u16_lo(CONFIGURATOR_HELLO_EVENT_CODE));

        let packet = Packet { is_error: false, device_address: BROADCAST_ADDRESS, data };
        proof {
            assert(packet@.data =~= self.spec_to_packet().data);
            assert(packet@ =~= self.spec_to_packet());
        }
        packet
    }
}

/// Law: decoding an encoded configurator hello gives the event back.
pub proof fn lemma_configurator_hello_round_trip(e: ConfiguratorHelloEvent)
    ensures
        ConfiguratorHelloEvent::spec_try_from_packet(e.spec_to_packet()) == Ok::<
            ConfiguratorHelloEvent,
            ConvertPacketError,
        >(e),
{
    lemma_u16_be_round_trip(CONFIGURATOR_HELLO_EVENT_CODE);
}

} // verus!
