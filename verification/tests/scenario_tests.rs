use ross_protocol::convert_packet::{ConvertPacket, ConvertPacketError};
use ross_protocol::event::bcm::{BcmChangeBrightnessEvent, BcmValue};
use ross_protocol::event::general::{AckEvent, DataEvent};
use ross_protocol::event::message::{MessageEvent, MessageValue};
use ross_protocol::frame::{Frame, FrameId};
use ross_protocol::packet::Packet;

#[test]
fn single_frame_ack_round_trip_test() {
    let event = AckEvent { receiver_address: 0xabab, transmitter_address: 0x0123 };

    let packet = event.to_packet();
    assert_eq!(packet.is_error, false);
    assert_eq!(packet.device_address, 0xabab);
    assert_eq!(packet.data, vec![0x00, 0x03, 0x01, 0x23]);

    let frames = packet.to_frames();
    assert_eq!(frames.len(), 1);
    assert_eq!(
        frames[0],
        Frame {
            not_error_flag: true,
            start_frame_flag: true,
            multi_frame_flag: false,
            frame_id: FrameId::LastFrameId(0),
            device_address: 0xabab,
            data_len: 4,
            data: [0x00, 0x03, 0x01, 0x23, 0, 0, 0, 0],
        }
    );

    assert_eq!(AckEvent::try_from_packet(&packet).unwrap(), event);
}

#[test]
fn two_frame_data_packet_test() {
    let event = DataEvent {
        receiver_address: 0xabab,
        transmitter_address: 0x0123,
        data_len: 0x0005,
        data: vec![0x00, 0x01, 0x02, 0x03, 0x04],
    };

    let packet = event.to_packet();
    assert_eq!(
        packet.data,
        vec![0x00, 0x04, 0x01, 0x23, 0x00, 0x05, 0x00, 0x01, 0x02, 0x03, 0x04]
    );
    assert_eq!(packet.data.len(), 11);

    let frames = packet.to_frames();
    assert_eq!(frames.len(), 2);
    assert_eq!(
        frames[0],
        Frame {
            not_error_flag: true,
            start_frame_flag: true,
            multi_frame_flag: true,
            frame_id: FrameId::LastFrameId(1),
            device_address: 0xabab,
            data_len: 8,
            data: [0x01, 0x00, 0x04, 0x01, 0x23, 0x00, 0x05, 0x00],
        }
    );
    assert_eq!(
        frames[1],
        Frame {
            not_error_flag: true,
            start_frame_flag: false,
            multi_frame_flag: true,
            frame_id: FrameId::CurrentFrameId(1),
            device_address: 0xabab,
            data_len: 5,
            data: [0x01, 0x01, 0x02, 0x03, 0x04, 0, 0, 0],
        }
    );
}

#[test]
fn bcm_change_brightness_rgb_test() {
    let event = BcmChangeBrightnessEvent {
        bcm_address: 0xabab,
        transmitter_address: 0x0000,
        index: 0x01,
        value: BcmValue::Rgb(0x23, 0x45, 0x67),
    };

    let packet = event.to_packet();
    assert_eq!(packet.data, vec![0x00, 0x06, 0x00, 0x00, 0x01, 0x01, 0x23, 0x45, 0x67]);
    assert_eq!(packet.data.len(), 9);

    let mut short = packet.clone();
    short.data.pop();
    assert_eq!(
        BcmChangeBrightnessEvent::try_from_packet(&short),
        Err(ConvertPacketError::WrongSize)
    );

    let mut error_packet = packet.clone();
    error_packet.is_error = true;
    assert_eq!(
        BcmChangeBrightnessEvent::try_from_packet(&error_packet),
        Err(ConvertPacketError::WrongType)
    );

    assert_eq!(BcmChangeBrightnessEvent::try_from_packet(&packet).unwrap(), event);
}

#[test]
fn message_try_from_packet_test() {
    let packet = Packet {
        is_error: false,
        device_address: 0xabab,
        data: vec![
            0x00, 0x0c, // event code
            0x00, 0x00, // transmitter address
            0x01, 0x23, // message code
            0x02, // value tag: 32-bit
            0xde, 0xad, 0xbe, 0xef, // value
        ],
    };

    let event = MessageEvent::try_from_packet(&packet).unwrap();

    assert_eq!(event.receiver_address, 0xabab);
    assert_eq!(event.transmitter_address, 0x0000);
    assert_eq!(event.code, 0x0123);
    assert_eq!(event.value, MessageValue::U32(0xdead_beef));
}

#[test]
fn message_to_packet_test() {
    let event = MessageEvent {
        receiver_address: 0xabab,
        transmitter_address: 0x0000,
        code: 0x0123,
        value: MessageValue::U32(0xdead_beef),
    };

    let packet = Packet {
        is_error: false,
        device_address: 0xabab,
        data: vec![
            0x00, 0x0c, // event code
            0x00, 0x00, // transmitter address
            0x01, 0x23, // message code
            0x02, // value tag: 32-bit
            0xde, 0xad, 0xbe, 0xef, // value
        ],
    };

    assert_eq!(event.to_packet(), packet);
}

#[test]
fn message_value_round_trips_test() {
    let values = [
        MessageValue::U8(0x7f),
        MessageValue::U16(0xbeef),
        MessageValue::U32(0x0123_4567),
        MessageValue::Bool(true),
        MessageValue::Bool(false),
    ];

    for value in values {
        let event = MessageEvent {
            receiver_address: 0x1111,
            transmitter_address: 0x2222,
            code: 0x0042,
            value,
        };

        assert_eq!(MessageEvent::try_from_packet(&event.to_packet()).unwrap(), event);
    }
}

#[test]
fn message_value_unknown_variant_test() {
    let packet = Packet {
        is_error: false,
        device_address: 0xabab,
        data: vec![
            0x00, 0x0c, // event code
            0x00, 0x00, // transmitter address
            0x01, 0x23, // message code
            0x04, // unknown value tag
            0x00,
        ],
    };

    assert_eq!(
        MessageEvent::try_from_packet(&packet),
        Err(ConvertPacketError::UnknownEnumVariant)
    );
}

#[test]
fn message_wrong_size_test() {
    // A 16-bit tag with a 32-bit payload behind it.
    let packet = Packet {
        is_error: false,
        device_address: 0xabab,
        data: vec![
            0x00, 0x0c, // event code
            0x00, 0x00, // transmitter address
            0x01, 0x23, // message code
            0x01, // value tag: 16-bit
            0xde, 0xad, 0xbe, 0xef, // four payload bytes instead of two
        ],
    };

    assert_eq!(MessageEvent::try_from_packet(&packet), Err(ConvertPacketError::WrongSize));
}

#[test]
fn event_round_trips_test() {
    let ack = AckEvent { receiver_address: 0xabab, transmitter_address: 0x0123 };
    assert_eq!(AckEvent::try_from_packet(&ack.to_packet()).unwrap(), ack);

    let bcm = BcmChangeBrightnessEvent {
        bcm_address: 0x0001,
        transmitter_address: 0x0002,
        index: 3,
        value: BcmValue::Rgbw(1, 2, 3, 4),
    };
    assert_eq!(BcmChangeBrightnessEvent::try_from_packet(&bcm.to_packet()).unwrap(), bcm);

    let data = DataEvent {
        receiver_address: 0x0a0b,
        transmitter_address: 0x0c0d,
        data_len: 3,
        data: vec![9, 8, 7],
    };
    assert_eq!(DataEvent::try_from_packet(&data.to_packet()).unwrap(), data);
}
