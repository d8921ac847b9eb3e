//! The programmer tool's events.

use vstd::prelude::*;

use crate::convert_packet::{ConvertPacket, ConvertPacketError};
use crate::event::event_code::{
    PROGRAMMER_HELLO_EVENT_CODE, PROGRAMMER_SET_DEVICE_ADDRESS_EVENT_CODE,
    PROGRAMMER_START_CONFIG_UPGRADE_EVENT_CODE, PROGRAMMER_START_FIRMWARE_UPGRADE_EVENT_CODE,
};
use crate::event::EventError;
use crate::event::{
    spec_u16_from_be, spec_u16_hi, spec_u16_lo, spec_u32_byte, spec_u32_from_be, u16_from_be,
    u16_hi, u16_lo, u32_byte, u32_from_be, lemma_u16_be_round_trip, lemma_u32_be_round_trip,
};
use crate::packet::{Packet, PacketModel};
use crate::protocol::BROADCAST_ADDRESS;

verus! {

/// A programmer announcing itself to every device on the bus.
#[derive(Debug, Eq, PartialEq, Ord, PartialOrd, Clone, Copy)]
pub struct ProgrammerHelloEvent {
    /// The announcing programmer.
    pub programmer_address: u16,
}

impl View for ProgrammerHelloEvent {
    type V = ProgrammerHelloEvent;

    open spec fn view(&self) -> ProgrammerHelloEvent {
        *self
    }
}

impl ConvertPacket<ProgrammerHelloEvent> for ProgrammerHelloEvent {
    open spec fn spec_try_from_packet(packet: PacketModel) -> Result<
        ProgrammerHelloEvent,
        ConvertPacketError,
    > {
        if packet.is_error {
            Err(ConvertPacketError::WrongType)
        } else if packet.data.len() != 4 {
            Err(ConvertPacketError::WrongSize)
        } else if spec_u16_from_be(packet.data[0], packet.data[1])
            != PROGRAMMER_HELLO_EVENT_CODE {
            Err(ConvertPacketError::Event(EventError::WrongEventType))
        } else {
            Ok(
                ProgrammerHelloEvent {
                    programmer_address: spec_u16_from_be(packet.data[2], packet.data[3]),
                },
            )
        }
    }

    open spec fn spec_to_packet(&self) -> PacketModel {
        PacketModel {
            is_error: false,
            device_address: BROADCAST_ADDRESS,
            data: seq![
                spec_u16_hi(PROGRAMMER_HELLO_EVENT_CODE),
                spec_u16_lo(PROGRAMMER_HELLO_EVENT_CODE),
                spec_u16_hi(self.programmer_address),
                spec_u16_lo(self.programmer_address),
            ],
        }
    }

    fn try_from_packet(packet: &Packet) -> (r: Result<ProgrammerHelloEvent, ConvertPacketError>) {
        if packet.is_error {
            return Err(ConvertPacketError::WrongType);
        }

        if packet.data.len() != 4 {
            return Err(ConvertPacketError::WrongSize);
        }

        if u16_from_be(packet.data[0], packet.data[1]) != PROGRAMMER_HELLO_EVENT_CODE {
            return Err(ConvertPacketError::Event(EventError::WrongEventType));
        }

        let programmer_address = u16_from_be(packet.data[2], packet.data[3]);

        Ok(ProgrammerHelloEvent { programmer_address })
    }

    fn to_packet(&self) -> (r: Packet) {
        let mut data: Vec<u8> = Vec::new();

        data.push(u16_hi(PROGRAMMER_HELLO_EVENT_CODE));
        data.push(u16_lo(PROGRAMMER_HELLO_EVENT_CODE));
        data.push(u16_hi(self.programmer_address));
        data.push(u16_lo(self.programmer_address));

        let packet = Packet { is_error: false, device_address: BROADCAST_ADDRESS, data };
        proof {
            assert(packet@.data =~= self.spec_to_packet().data);
            assert(packet@ =~= self.spec_to_packet());
        }
        packet
    }
}

/// Law: decoding an encoded programmer hello gives the event back.
pub proof fn lemma_programmer_hello_round_trip(e: ProgrammerHelloEvent)
    ensures
        ProgrammerHelloEvent::spec_try_from_packet(e.spec_to_packet()) == Ok::<
            ProgrammerHelloEvent,
            ConvertPacketError,
        >(e),
{
    lemma_u16_be_round_trip(PROGRAMMER_HELLO_EVENT_CODE);
    lemma_u16_be_round_trip(e.programmer_address);
}

/// A programmer starting a firmware upgrade on a device.
#[derive(Debug, Eq, PartialEq, Ord, PartialOrd, Clone, Copy)]
pub struct ProgrammerStartFirmwareUpgradeEvent {
    /// The device to upgrade.
    pub receiver_address: u16,
    /// The upgrading programmer.
    pub programmer_address: u16,
    /// How many firmware bytes will follow.
    pub firmware_size: u32,
}

impl View for ProgrammerStartFirmwareUpgradeEvent {
    type V = ProgrammerStartFirmwareUpgradeEvent;

    open spec fn view(&self) -> ProgrammerStartFirmwareUpgradeEvent {
        *self
    }
}

impl ConvertPacket<ProgrammerStartFirmwareUpgradeEvent> for ProgrammerStartFirmwareUpgradeEvent {
    open spec fn spec_try_from_packet(packet: PacketModel) -> Result<
        ProgrammerStartFirmwareUpgradeEvent,
        ConvertPacketError,
    > {
        if packet.is_error {
            Err(ConvertPacketError::WrongType)
        } else if packet.data.len() != 8 {
            Err(ConvertPacketError::WrongSize)
        } else if spec_u16_from_be(packet.data[0], packet.data[1])
            != PROGRAMMER_START_FIRMWARE_UPGRADE_EVENT_CODE {
            Err(ConvertPacketError::Event(EventError::WrongEventType))
        } else {
            Ok(
                ProgrammerStartFirmwareUpgradeEvent {
                    receiver_address: packet.device_address,
                    programmer_address: spec_u16_from_be(packet.data[2], packet.data[3]),
                    firmware_size: spec_u32_from_be(
                        packet.data[4],
                        packet.data[5],
                        packet.data[6],
                        packet.data[7],
                    ),
                },
            )
        }
    }

    open spec fn spec_to_packet(&self) -> PacketModel {
        PacketModel {
            is_error: false,
            device_address: self.receiver_address,
            data: seq![
                spec_u16_hi(PROGRAMMER_START_FIRMWARE_UPGRADE_EVENT_CODE),
                spec_u16_lo(PROGRAMMER_START_FIRMWARE_UPGRADE_EVENT_CODE),
                spec_u16_hi(self.programmer_address),
                spec_u16_lo(self.programmer_address),
                spec_u32_byte(self.firmware_size, 0),
                spec_u32_byte(self.firmware_size, 1),
                spec_u32_byte(self.firmware_size, 2),
                spec_u32_byte(self.firmware_size, 3),
            ],
        }
    }

    fn try_from_packet(packet: &Packet) -> (r: Result<
        ProgrammerStartFirmwareUpgradeEvent,
        ConvertPacketError,
    >) {
        if packet.is_error {
            return Err(ConvertPacketError::WrongType);
        }

        if packet.data.len() != 8 {
            return Err(ConvertPacketError::WrongSize);
        }

        if u16_from_be(packet.data[0], packet.data[1])
            != PROGRAMMER_START_FIRMWARE_UPGRADE_EVENT_CODE {
            return Err(ConvertPacketError::Event(EventError::WrongEventType));
        }

        let receiver_address = packet.device_address;
        let programmer_address = u16_from_be(packet.data[2], packet.data[3]);
        let firmware_size = u32_from_be(
            packet.data[4],
            packet.data[5],
            packet.data[6],
            packet.data[7],
        );

        Ok(ProgrammerStartFirmwareUpgradeEvent {
            receiver_address,
            programmer_address,
            firmware_size,
        })
    }

    fn to_packet(&self) -> (r: Packet) {
        let mut data: Vec<u8> = Vec::new();

        data.push(u16_hi(PROGRAMMER_START_FIRMWARE_UPGRADE_EVENT_CODE));
        data.push(u16_lo(PROGRAMMER_START_FIRMWARE_UPGRADE_EVENT_CODE));
        data.push(u16_hi(self.programmer_address));
        data.push(u16_lo(self.programmer_address));
        data.push(u32_byte(self.firmware_size, 0));
        data.push(u32_byte(self.firmware_size, 1));
        data.push(u32_byte(self.firmware_size, 2));
        data.push(u32_byte(self.firmware_size, 3));

        let packet = Packet { is_error: false, device_address: self.receiver_address, data };
        proof {
            assert(packet@.data =~= self.spec_to_packet().data);
            assert(packet@ =~= self.spec_to_packet());
        }
        packet
    }
}

/// Law: decoding an encoded firmware-upgrade start gives the event back.
pub proof fn lemma_programmer_start_firmware_upgrade_round_trip(
    e: ProgrammerStartFirmwareUpgradeEvent,
)
    ensures
        ProgrammerStartFirmwareUpgradeEvent::spec_try_from_packet(e.spec_to_packet()) == Ok::<
            ProgrammerStartFirmwareUpgradeEvent,
            ConvertPacketError,
        >(e),
{
    lemma_u16_be_round_trip(PROGRAMMER_START_FIRMWARE_UPGRADE_EVENT_CODE);
    lemma_u16_be_round_trip(e.programmer_address);
    lemma_u32_be_round_trip(e.firmware_size);
}

/// A programmer starting a configuration upgrade on a device.
#[derive(Debug, Eq, PartialEq, Ord, PartialOrd, Clone, Copy)]
pub struct ProgrammerStartConfigUpgradeEvent {
    /// The device to upgrade.
    pub receiver_address: u16,
    /// The upgrading programmer.
    pub programmer_address: u16,
    /// How many configuration bytes will follow.
    pub config_size: u32,
}

impl View for ProgrammerStartConfigUpgradeEvent {
    type V = ProgrammerStartConfigUpgradeEvent;

    open spec fn view(&self) -> ProgrammerStartConfigUpgradeEvent {
        *self
    }
}

impl ConvertPacket<ProgrammerStartConfigUpgradeEvent> for ProgrammerStartConfigUpgradeEvent {
    open spec fn spec_try_from_packet(packet: PacketModel) -> Result<
        ProgrammerStartConfigUpgradeEvent,
        ConvertPacketError,
    > {
        if packet.is_error {
            Err(ConvertPacketError::WrongType)
        } else if packet.data.len() != 8 {
            Err(ConvertPacketError::WrongSize)
        } else if spec_u16_from_be(packet.data[0], packet.data[1])
            != PROGRAMMER_START_CONFIG_UPGRADE_EVENT_CODE {
            Err(ConvertPacketError::Event(EventError::WrongEventType))
        } else {
            Ok(
                ProgrammerStartConfigUpgradeEvent {
                    receiver_address: packet.device_address,
                    programmer_address: spec_u16_from_be(packet.data[2], packet.data[3]),
                    config_size: spec_u32_from_be(
                        packet.data[4],
                        packet.data[5],
                        packet.data[6],
                        packet.data[7],
                    ),
                },
            )
        }
    }

    open spec fn spec_to_packet(&self) -> PacketModel {
        PacketModel {
            is_error: false,
            device_address: self.receiver_address,
            data: seq![
                spec_u16_hi(PROGRAMMER_START_CONFIG_UPGRADE_EVENT_CODE),
                spec_u16_lo(PROGRAMMER_START_CONFIG_UPGRADE_EVENT_CODE),
                spec_u16_hi(self.programmer_address),
                spec_u16_lo(self.programmer_address),
                spec_u32_byte(self.config_size, 0),
                spec_u32_byte(self.config_size, 1),
                spec_u32_byte(self.config_size, 2),
                spec_u32_byte(self.config_size, 3),
            ],
        }
    }

    fn try_from_packet(packet: &Packet) -> (r: Result<
        ProgrammerStartConfigUpgradeEvent,
        ConvertPacketError,
    >) {
        if packet.is_error {
            return Err(ConvertPacketError::WrongType);
        }

        if packet.data.len() != 8 {
            return Err(ConvertPacketError::WrongSize);
        }

        if u16_from_be(packet.data[0], packet.data[1])
            != PROGRAMMER_START_CONFIG_UPGRADE_EVENT_CODE {
            return Err(ConvertPacketError::Event(EventError::WrongEventType));
        }

        let receiver_address = packet.device_address;
        let programmer_address = u16_from_be(packet.data[2], packet.data[3]);
        let config_size = u32_from_be(
            packet.data[4],
            packet.data[5],
            packet.data[6],
            packet.data[7],
        );

        Ok(ProgrammerStartConfigUpgradeEvent { receiver_address, programmer_address, config_size })
    }

    fn to_packet(&self) -> (r: Packet) {
        let mut data: Vec<u8> = Vec::new();

        data.push(u16_hi(PROGRAMMER_START_CONFIG_UPGRADE_EVENT_CODE));
        data.push(u16_lo(PROGRAMMER_START_CONFIG_UPGRADE_EVENT_CODE));
        data.push(u16_hi(self.programmer_address));
        data.push(u16_lo(self.programmer_address));
        data.push(u32_byte(self.config_size, 0));
        data.push(u32_byte(self.config_size, 1));
        data.push(u32_byte(self.config_size, 2));
        data.push(u32_byte(self.config_size, 3));

        let packet = Packet { is_error: false, device_address: self.receiver_address, data };
        proof {
            assert(packet@.data =~= self.spec_to_packet().data);
            assert(packet@ =~= self.spec_to_packet());
        }
        packet
    }
}

/// Law: decoding an encoded configuration-upgrade start gives the event
/// back.
pub proof fn lemma_programmer_start_config_upgrade_round_trip(
    e: ProgrammerStartConfigUpgradeEvent,
)
    ensures
        ProgrammerStartConfigUpgradeEvent::spec_try_from_packet(e.spec_to_packet()) == Ok::<
            ProgrammerStartConfigUpgradeEvent,
            ConvertPacketError,
        >(e),
{
    lemma_u16_be_round_trip(PROGRAMMER_START_CONFIG_UPGRADE_EVENT_CODE);
    lemma_u16_be_round_trip(e.programmer_address);
    lemma_u32_be_round_trip(e.config_size);
}

/// A programmer assigning a new address to a device.
#[derive(Debug, Eq, PartialEq, Ord, PartialOrd, Clone, Copy)]
pub struct ProgrammerSetDeviceAddressEvent {
    /// The device to readdress.
    pub receiver_address: u16,
    /// The assigning programmer.
    pub programmer_address: u16,
    /// The address the device shall take.
    pub new_address: u16,
}

impl View for ProgrammerSetDeviceAddressEvent {
    type V = ProgrammerSetDeviceAddressEvent;

    open spec fn view(&self) -> ProgrammerSetDeviceAddressEvent {
        *self
    }
}

impl ConvertPacket<ProgrammerSetDeviceAddressEvent> for ProgrammerSetDeviceAddressEvent {
    open spec fn spec_try_from_packet(packet: PacketModel) -> Result<
        ProgrammerSetDeviceAddressEvent,
        ConvertPacketError,
    > {
        if packet.is_error {
            Err(ConvertPacketError::WrongType)
        } else if packet.data.len() != 6 {
            Err(ConvertPacketError::WrongSize)
        } else if spec_u16_from_be(packet.data[0], packet.data[1])
            != PROGRAMMER_SET_DEVICE_ADDRESS_EVENT_CODE {
            Err(ConvertPacketError::Event(EventError::WrongEventType))
        } else {
            Ok(
                ProgrammerSetDeviceAddressEvent {
                    receiver_address: packet.device_address,
                    programmer_address: spec_u16_from_be(packet.data[2], packet.data[3]),
                    new_address: spec_u16_from_be(packet.data[4], packet.data[5]),
                },
            )
        }
    }

    open spec fn spec_to_packet(&self) -> PacketModel {
        PacketModel {
            is_error: false,
            device_address: self.receiver_address,
            data: seq![
                spec_u16_hi(PROGRAMMER_SET_DEVICE_ADDRESS_EVENT_CODE),
                spec_u16_lo(PROGRAMMER_SET_DEVICE_ADDRESS_EVENT_CODE),
                spec_u16_hi(self.programmer_address),
                spec_u16_lo(self.programmer_address),
                spec_u16_hi(self.new_address),
                spec_u16_lo(self.new_address),
            ],
        }
    }

    fn try_from_packet(packet: &Packet) -> (r: Result<
        ProgrammerSetDeviceAddressEvent,
        ConvertPacketError,
    >) {
        if packet.is_error {
            return Err(ConvertPacketError::WrongType);
        }

        if packet.data.len() != 6 {
            return Err(ConvertPacketError::WrongSize);
        }

        if u16_from_be(packet.data[0], packet.data[1])
            != PROGRAMMER_SET_DEVICE_ADDRESS_EVENT_CODE {
            return Err(ConvertPacketError::Event(EventError::WrongEventType));
        }

        let receiver_address = packet.device_address;
        let programmer_address = u16_from_be(packet.data[2], packet.data[3]);
        let new_address = u16_from_be(packet.data[4], packet.data[5]);

        Ok(ProgrammerSetDeviceAddressEvent { receiver_address, programmer_address, new_address })
    }

    fn to_packet(&self) -> (r: Packet) {
        let mut data: Vec<u8> = Vec::new();

        data.push(u16_hi(PROGRAMMER_SET_DEVICE_ADDRESS_EVENT_CODE));
        data.push(u16_lo(PROGRAMMER_SET_DEVICE_ADDRESS_EVENT_CODE));
        data.push(u16_hi(self.programmer_address));
        data.push(u16_lo(self.programmer_address));
        data.push(u16_hi(self.new_address));
        data.push(u16_lo(self.new_address));

        let packet = Packet { is_error: false, device_address: self.receiver_address, data };
        proof {
            assert(packet@.data =~= self.spec_to_packet().data);
            assert(packet@ =~= self.spec_to_packet());
        }
        packet
    }
}

/// Law: decoding an encoded address assignment gives the event back.
pub proof fn lemma_programmer_set_device_address_round_trip(e: ProgrammerSetDeviceAddressEvent)
    ensures
        ProgrammerSetDeviceAddressEvent::spec_try_from_packet(e.spec_to_packet()) == Ok::<
            ProgrammerSetDeviceAddressEvent,
            ConvertPacketError,
        >(e),
{
    lemma_u16_be_round_trip(PROGRAMMER_SET_DEVICE_ADDRESS_EVENT_CODE);
    lemma_u16_be_round_trip(e.programmer_address);
    lemma_u16_be_round_trip(e.new_address);
}

} // verus!
