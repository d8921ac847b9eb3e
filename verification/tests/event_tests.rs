use ross_protocol::convert_packet::{ConvertPacket, ConvertPacketError};
use ross_protocol::event::bcm::{BcmAnimateBrightnessEvent, BcmChangeBrightnessEvent, BcmValue};
use ross_protocol::event::bootloader::BootloaderHelloEvent;
use ross_protocol::event::button::{ButtonPressedEvent, ButtonReleasedEvent};
use ross_protocol::event::configurator::ConfiguratorHelloEvent;
use ross_protocol::event::general::{AckEvent, DataEvent};
use ross_protocol::event::internal::SystemTickEvent;
use ross_protocol::event::programmer::{
    ProgrammerHelloEvent, ProgrammerSetDeviceAddressEvent, ProgrammerStartConfigUpgradeEvent,
    ProgrammerStartFirmwareUpgradeEvent,
};
use ross_protocol::event::relay::{
    RelayDoubleExclusiveValue, RelayFlipStateEvent, RelaySetValueEvent, RelayValue,
};
use ross_protocol::event::EventError;
use ross_protocol::packet::Packet;
use ross_protocol::protocol::BROADCAST_ADDRESS;

fn event_packet(data: Vec<u8>) -> Packet {
    Packet { is_error: false, device_address: 0xabab, data }
}

#[test]
fn change_brightness_try_from_packet_test() {
    let packet = event_packet(vec![
        0x00, 0x06, // event code
        0x00, 0x00, // transmitter address
        0x01, // index
        0x01, 0x23, 0x45, 0x67, // value
    ]);

    let event = BcmChangeBrightnessEvent::try_from_packet(&packet).unwrap();

    assert_eq!(event.bcm_address, 0xabab);
    assert_eq!(event.transmitter_address, 0x0000);
    assert_eq!(event.index, 0x01);
    assert_eq!(event.value, BcmValue::Rgb(0x23, 0x45, 0x67));
}

#[test]
fn change_brightness_to_packet_test() {
    let event = BcmChangeBrightnessEvent {
        bcm_address: 0xabab,
        transmitter_address: 0x0000,
        index: 0x01,
        value: BcmValue::Rgb(0x23, 0x45, 0x67),
    };

    let packet = event_packet(vec![
        0x00, 0x06, // event code
        0x00, 0x00, // transmitter address
        0x01, // index
        0x01, 0x23, 0x45, 0x67, // value
    ]);

    assert_eq!(event.to_packet(), packet);
}

#[test]
fn animate_brightness_try_from_packet_test() {
    let packet = event_packet(vec![
        0x00, 0x0d, // event code
        0x00, 0x00, // transmitter address
        0x01, // index
        0xab, 0xab, 0xab, 0xab, // duration
        0x01, 0x23, 0x45, 0x67, // target value
    ]);

    let event = BcmAnimateBrightnessEvent::try_from_packet(&packet).unwrap();

    assert_eq!(event.bcm_address, 0xabab);
    assert_eq!(event.transmitter_address, 0x0000);
    assert_eq!(event.index, 0x01);
    assert_eq!(event.duration, 0xabab_abab);
    assert_eq!(event.target_value, BcmValue::Rgb(0x23, 0x45, 0x67));
}

#[test]
fn animate_brightness_to_packet_test() {
    let event = BcmAnimateBrightnessEvent {
        bcm_address: 0xabab,
        transmitter_address: 0x0000,
        index: 0x01,
        duration: 0xabab_abab,
        target_value: BcmValue::Rgb(0x23, 0x45, 0x67),
    };

    let packet = event_packet(vec![
        0x00, 0x0d, // event code
        0x00, 0x00, // transmitter address
        0x01, // index
        0xab, 0xab, 0xab, 0xab, // duration
        0x01, 0x23, 0x45, 0x67, // target value
    ]);

    assert_eq!(event.to_packet(), packet);
}

#[test]
fn bootloader_try_from_packet_test() {
    let packet = event_packet(vec![
        0x00, 0x00, // event code
        0x01, 0x23, // bootloader address
    ]);

    let event = BootloaderHelloEvent::try_from_packet(&packet).unwrap();

    assert_eq!(event.programmer_address, 0xabab);
    assert_eq!(event.bootloader_address, 0x0123);
}

#[test]
#[should_panic]
fn try_from_packet_wrong_size_test() {
    let packet = event_packet(vec![
        0x00, 0x00, // event code
        0x01, 0x23, // bootloader address
        0x00, // extra byte
    ]);

    BootloaderHelloEvent::try_from_packet(&packet).unwrap();
}

#[test]
#[should_panic]
fn try_from_packet_wrong_type_test() {
    let mut packet = event_packet(vec![
        0x00, 0x00, // event code
        0x01, 0x23, // bootloader address
    ]);
    packet.is_error = true;

    BootloaderHelloEvent::try_from_packet(&packet).unwrap();
}

#[test]
#[should_panic]
fn try_from_packet_wrong_event_type_test() {
    let packet = event_packet(vec![
        0x00, 0x01, // the programmer hello event code
        0x01, 0x23, // programmer address
    ]);

    BootloaderHelloEvent::try_from_packet(&packet).unwrap();
}

#[test]
fn bootloader_to_packet_test() {
    let event = BootloaderHelloEvent { programmer_address: 0xabab, bootloader_address: 0x0123 };

    let packet = event_packet(vec![
        0x00, 0x00, // event code
        0x01, 0x23, // bootloader address
    ]);

    assert_eq!(event.to_packet(), packet);
}

#[test]
fn pressed_try_from_packet_test() {
    let packet = event_packet(vec![
        0x00, 0x07, // event code
        0x01, 0x23, // button address
        0x45, // index
    ]);

    let event = ButtonPressedEvent::try_from_packet(&packet).unwrap();

    assert_eq!(event.receiver_address, 0xabab);
    assert_eq!(event.button_address, 0x0123);
    assert_eq!(event.index, 0x45);
}

#[test]
fn pressed_to_packet_test() {
    let event = ButtonPressedEvent { receiver_address: 0xabab, button_address: 0x0123, index: 0x45 };

    let packet = event_packet(vec![
        0x00, 0x07, // event code
        0x01, 0x23, // button address
        0x45, // index
    ]);

    assert_eq!(event.to_packet(), packet);
}

#[test]
fn released_try_from_test() {
    let packet = event_packet(vec![
        0x00, 0x08, // event code
        0x01, 0x23, // button address
        0x45, // index
    ]);

    let event = ButtonReleasedEvent::try_from_packet(&packet).unwrap();

    assert_eq!(event.receiver_address, 0xabab);
    assert_eq!(event.button_address, 0x0123);
    assert_eq!(event.index, 0x45);
}

#[test]
fn released_to_packet_test() {
    let event = ButtonReleasedEvent {
        receiver_address: 0xabab,
        button_address: 0x0123,
        index: 0x45,
    };

    let packet = event_packet(vec![
        0x00, 0x08, // event code
        0x01, 0x23, // button address
        0x45, // index
    ]);

    assert_eq!(event.to_packet(), packet);
}

#[test]
fn configurator_try_from_packet_test() {
    let packet = Packet { is_error: false, device_address: 0x0000, data: vec![0x00, 0x05] };

    ConfiguratorHelloEvent::try_from_packet(&packet).unwrap();
}

#[test]
fn configurator_to_packet_test() {
    let event = ConfiguratorHelloEvent {};

    let packet = Packet {
        is_error: false,
        device_address: BROADCAST_ADDRESS,
        data: vec![0x00, 0x05],
    };

    assert_eq!(event.to_packet(), packet);
}

#[test]
fn ack_try_from_packet_test() {
    let packet = event_packet(vec![
        0x00, 0x03, // event code
        0x01, 0x23, // transmitter address
    ]);

    let event = AckEvent::try_from_packet(&packet).unwrap();

    assert_eq!(event.receiver_address, 0xabab);
    assert_eq!(event.transmitter_address, 0x0123);
}

#[test]
fn ack_to_packet_test() {
    let event = AckEvent { receiver_address: 0xabab, transmitter_address: 0x0123 };

    let packet = event_packet(vec![
        0x00, 0x03, // event code
        0x01, 0x23, // transmitter address
    ]);

    assert_eq!(event.to_packet(), packet);
}

#[test]
fn data_try_from_packet_test() {
    let packet = event_packet(vec![
        0x00, 0x04, // event code
        0x01, 0x23, // transmitter address
        0x00, 0x05, // data len
        0x00, 0x01, 0x02, 0x03, 0x04, // data
    ]);

    let event = DataEvent::try_from_packet(&packet).unwrap();

    assert_eq!(event.receiver_address, 0xabab);
    assert_eq!(event.transmitter_address, 0x0123);
    assert_eq!(event.data_len, 0x0005);
    assert_eq!(event.data, vec![0x00, 0x01, 0x02, 0x03, 0x04]);
}

#[test]
fn data_to_packet_test() {
    let event = DataEvent {
        receiver_address: 0xabab,
        transmitter_address: 0x0123,
        data_len: 0x0005,
        data: vec![0x00, 0x01, 0x02, 0x03, 0x04],
    };

    let packet = event_packet(vec![
        0x00, 0x04, // event code
        0x01, 0x23, // transmitter address
        0x00, 0x05, // data len
        0x00, 0x01, 0x02, 0x03, 0x04, // data
    ]);

    assert_eq!(event.to_packet(), packet);
}

#[test]
fn internal_try_from_packet_test() {
    let packet = event_packet(vec![0x00, 0x09]);

    let event = SystemTickEvent::try_from_packet(&packet).unwrap();

    assert_eq!(event.receiver_address, 0xabab);
}

#[test]
fn internal_to_packet_test() {
    let event = SystemTickEvent { receiver_address: 0xabab };

    let packet = event_packet(vec![0x00, 0x09]);

    assert_eq!(event.to_packet(), packet);
}

#[test]
fn hello_try_from_packet_test() {
    let packet = event_packet(vec![
        0x00, 0x01, // event code
        0x01, 0x23, // programmer address
    ]);

    let event = ProgrammerHelloEvent::try_from_packet(&packet).unwrap();

    assert_eq!(event.programmer_address, 0x0123);
}

#[test]
#[should_panic]
fn hello_try_from_packet_wrong_size_test() {
    let packet = event_packet(vec![
        0x00, 0x01, // event code
        0x01, 0x34, // programmer address
        0x00, // extra byte
    ]);

    ProgrammerHelloEvent::try_from_packet(&packet).unwrap();
}

#[test]
#[should_panic]
fn hello_try_from_packet_wrong_type_test() {
    let mut packet = event_packet(vec![
        0x00, 0x01, // event code
        0x01, 0x34, // programmer address
    ]);
    packet.is_error = true;

    ProgrammerHelloEvent::try_from_packet(&packet).unwrap();
}

#[test]
#[should_panic]
fn hello_try_from_packet_wrong_event_type_test() {
    let packet = event_packet(vec![
        0x00, 0x00, // the bootloader hello event code
        0x01, 0x23, // bootloader address
    ]);

    ProgrammerHelloEvent::try_from_packet(&packet).unwrap();
}

#[test]
fn hello_to_packet_test() {
    let event = ProgrammerHelloEvent { programmer_address: 0x0123 };

    let packet = Packet {
        is_error: false,
        device_address: BROADCAST_ADDRESS,
        data: vec![
            0x00, 0x01, // event code
            0x01, 0x23, // programmer address
        ],
    };

    assert_eq!(event.to_packet(), packet);
}

#[test]
fn start_firmware_upgrade_try_from_packet_test() {
    let packet = event_packet(vec![
        0x00, 0x02, // event code
        0x01, 0x23, // programmer address
        0x01, 0x23, 0x45, 0x67, // firmware size
    ]);

    let event = ProgrammerStartFirmwareUpgradeEvent::try_from_packet(&packet).unwrap();

    assert_eq!(event.receiver_address, 0xabab);
    assert_eq!(event.programmer_address, 0x0123);
    assert_eq!(event.firmware_size, 0x01234567);
}

#[test]
fn start_firmware_upgrade_to_packet_test() {
    let event = ProgrammerStartFirmwareUpgradeEvent {
        receiver_address: 0xabab,
        programmer_address: 0x0123,
        firmware_size: 0x01234567,
    };

    let packet = event_packet(vec![
        0x00, 0x02, // event code
        0x01, 0x23, // programmer address
        0x01, 0x23, 0x45, 0x67, // firmware size
    ]);

    assert_eq!(event.to_packet(), packet);
}

#[test]
fn start_config_upgrade_try_from_packet_test() {
    let packet = event_packet(vec![
        0x00, 0x0a, // event code
        0x01, 0x23, // programmer address
        0x01, 0x23, 0x45, 0x67, // config size
    ]);

    let event = ProgrammerStartConfigUpgradeEvent::try_from_packet(&packet).unwrap();

    assert_eq!(event.receiver_address, 0xabab);
    assert_eq!(event.programmer_address, 0x0123);
    assert_eq!(event.config_size, 0x01234567);
}

#[test]
fn start_config_upgrade_to_packet_test() {
    let event = ProgrammerStartConfigUpgradeEvent {
        receiver_address: 0xabab,
        programmer_address: 0x0123,
        config_size: 0x01234567,
    };

    let packet = event_packet(vec![
        0x00, 0x0a, // event code
        0x01, 0x23, // programmer address
        0x01, 0x23, 0x45, 0x67, // config size
    ]);

    assert_eq!(event.to_packet(), packet);
}

#[test]
fn set_device_address_try_from_packet_test() {
    let packet = event_packet(vec![
        0x00, 0x0b, // event code
        0x01, 0x23, // programmer address
        0x01, 0x23, // new address
    ]);

    let event = ProgrammerSetDeviceAddressEvent::try_from_packet(&packet).unwrap();

    assert_eq!(event.receiver_address, 0xabab);
    assert_eq!(event.programmer_address, 0x0123);
    assert_eq!(event.new_address, 0x0123);
}

#[test]
fn set_device_address_to_packet_test() {
    let event = ProgrammerSetDeviceAddressEvent {
        receiver_address: 0xabab,
        programmer_address: 0x0123,
        new_address: 0x0123,
    };

    let packet = event_packet(vec![
        0x00, 0x0b, // event code
        0x01, 0x23, // programmer address
        0x01, 0x23, // new address
    ]);

    assert_eq!(event.to_packet(), packet);
}

#[test]
fn set_state_try_from_packet_test() {
    let packet = event_packet(vec![
        0x00, 0x0e, // event code
        0x01, 0x23, // transmitter address
        0x45, // index
        0x03, // value
    ]);

    let event = RelaySetValueEvent::try_from_packet(&packet).unwrap();

    assert_eq!(event.relay_address, 0xabab);
    assert_eq!(event.transmitter_address, 0x0123);
    assert_eq!(event.index, 0x45);
    assert_eq!(event.value, RelayValue::DoubleExclusive(RelayDoubleExclusiveValue::SecondChannelOn));
}

#[test]
fn set_state_to_packet_test() {
    let event = RelaySetValueEvent {
        relay_address: 0xabab,
        transmitter_address: 0x0123,
        index: 0x45,
        value: RelayValue::DoubleExclusive(RelayDoubleExclusiveValue::SecondChannelOn),
    };

    let packet = event_packet(vec![
        0x00, 0x0e, // event code
        0x01, 0x23, // transmitter address
        0x45, // index
        0x03, // value
    ]);

    assert_eq!(event.to_packet(), packet);
}

#[test]
fn bcm_value_unknown_variant_test() {
    let packet = event_packet(vec![
        0x00, 0x06, // event code
        0x00, 0x00, // transmitter address
        0x01, // index
        0x07, 0x23, // value with an unknown tag
    ]);

    assert_eq!(
        BcmChangeBrightnessEvent::try_from_packet(&packet),
        Err(ConvertPacketError::UnknownEnumVariant)
    );
}

#[test]
fn relay_value_unknown_variant_test() {
    let packet = event_packet(vec![
        0x00, 0x0e, // event code
        0x01, 0x23, // transmitter address
        0x45, // index
        0x05, // value with an unknown tag
    ]);

    assert_eq!(
        RelaySetValueEvent::try_from_packet(&packet),
        Err(ConvertPacketError::UnknownEnumVariant)
    );
}

#[test]
fn ack_error_taxonomy_test() {
    // Wrong length.
    let packet = event_packet(vec![0x00, 0x03, 0x01, 0x23, 0x00]);
    assert_eq!(AckEvent::try_from_packet(&packet), Err(ConvertPacketError::WrongSize));

    // Error packet.
    let mut packet = event_packet(vec![0x00, 0x03, 0x01, 0x23]);
    packet.is_error = true;
    assert_eq!(AckEvent::try_from_packet(&packet), Err(ConvertPacketError::WrongType));

    // Wrong event code.
    let packet = event_packet(vec![0x00, 0x04, 0x01, 0x23]);
    assert_eq!(
        AckEvent::try_from_packet(&packet),
        Err(ConvertPacketError::Event(EventError::WrongEventType))
    );
}

#[test]
fn flip_state_try_from_packet_test() {
    let packet = event_packet(vec![
        0x00, 0x0f, // event code
        0x01, 0x23, // transmitter address
        0x45, // index
    ]);

    let event = RelayFlipStateEvent::try_from_packet(&packet).unwrap();

    assert_eq!(event.relay_address, 0xabab);
    assert_eq!(event.transmitter_address, 0x0123);
    assert_eq!(event.index, 0x45);
}

#[test]
fn flip_state_to_packet_test() {
    let event = RelayFlipStateEvent {
        relay_address: 0xabab,
        transmitter_address: 0x0123,
        index: 0x45,
    };

    let packet = event_packet(vec![
        0x00, 0x0f, // event code
        0x01, 0x23, // transmitter address
        0x45, // index
    ]);

    assert_eq!(event.to_packet(), packet);
}

#[test]
fn flip_state_round_trip_test() {
    let event = RelayFlipStateEvent {
        relay_address: 0x0a0b,
        transmitter_address: 0x0c0d,
        index: 0x02,
    };

    assert_eq!(RelayFlipStateEvent::try_from_packet(&event.to_packet()).unwrap(), event);
}
