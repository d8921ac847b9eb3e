//! The closed union of every typed event.

use vstd::prelude::*;

use crate::event::bcm::{BcmAnimateBrightnessEvent, BcmChangeBrightnessEvent};
use crate::event::bootloader::BootloaderHelloEvent;
use crate::event::button::{ButtonPressedEvent, ButtonReleasedEvent};
use crate::event::configurator::ConfiguratorHelloEvent;
use crate::event::general::{AckEvent, DataEvent};
use crate::event::internal::SystemTickEvent;
use crate::event::message::MessageEvent;
use crate::event::programmer::{
    ProgrammerHelloEvent, ProgrammerSetDeviceAddressEvent, ProgrammerStartConfigUpgradeEvent,
    ProgrammerStartFirmwareUpgradeEvent,
};
use crate::event::relay::{RelayFlipStateEvent, RelaySetValueEvent};

verus! {

/// What can go wrong while sorting a packet into the event family.
#[derive(Debug, PartialEq, Eq, Clone, Copy)]
pub enum EventPacketError {
    /// The provided packet was of a wrong event type.
    WrongEventType,
}

/// One event of the closed family, whichever kind it is.
#[derive(Debug, PartialEq, Clone)]
pub enum EventPacket {
    Ack(AckEvent),
    Data(DataEvent),
    BootloaderHello(BootloaderHelloEvent),
    ProgrammerHello(ProgrammerHelloEvent),
    ProgrammerStartFirmwareUpgrade(ProgrammerStartFirmwareUpgradeEvent),
    ProgrammerStartConfigUpgrade(ProgrammerStartConfigUpgradeEvent),
    ProgrammerSetDeviceAddress(ProgrammerSetDeviceAddressEvent),
    ConfiguratorHello(ConfiguratorHelloEvent),
    ButtonPressed(ButtonPressedEvent),
    ButtonReleased(ButtonReleasedEvent),
    SystemTick(SystemTickEvent),
    Message(MessageEvent),
    BcmChangeBrightness(BcmChangeBrightnessEvent),
    BcmAnimateBrightness(BcmAnimateBrightnessEvent),
    RelaySetValue(RelaySetValueEvent),
    RelayFlipState(RelayFlipStateEvent),
}

} // verus!
