use ross_protocol::frame::{
    delimited_wire_frame, CanFrame, CanId, Frame, FrameError, FrameId, WireFrameScanner,
};

fn sample_frame() -> Frame {
    Frame {
        not_error_flag: true,
        start_frame_flag: false,
        multi_frame_flag: true,
        frame_id: FrameId::CurrentFrameId(0x0555),
        device_address: 0x5555,
        data_len: 8,
        data: [0x55; 8],
    }
}

fn sample_usart_bytes() -> Vec<u8> {
    vec![
        0x0e, // COBS overhead
        0xa5, // byte 0
        0x55, // frame id
        0x55, // device address
        0x55, // device address
        0x08, // data len
        0x55, // data
        0x55, // data
        0x55, // data
        0x55, // data
        0x55, // data
        0x55, // data
        0x55, // data
        0x55, // data
    ]
}

#[test]
fn frame_from_usart_frame_test() {
    let usart_frame = sample_usart_bytes();

    let frame = Frame::from_usart_frame(usart_frame).unwrap();

    assert_eq!(frame, sample_frame());
}

#[test]
fn frame_to_usart_frame_test() {
    let usart_frame = sample_frame().to_usart_frame();

    assert_eq!(usart_frame, sample_usart_bytes());
}

#[test]
fn frame_test_from_usart_frame_test() {
    let usart_frame = sample_usart_bytes();

    let frame = Frame::from_usart_frame(usart_frame).unwrap();

    assert_eq!(frame, sample_frame());
}

#[test]
fn frame_test_to_usart_frame_test() {
    let usart_frame = sample_frame().to_usart_frame();

    assert_eq!(usart_frame, sample_usart_bytes());
}

#[test]
fn to_can_frame_test() {
    let can_frame = sample_frame().to_can_frame();

    assert_eq!(can_frame.id, CanId::Extended(0x1405_5555));
    assert!(!can_frame.is_remote);
    assert_eq!(can_frame.dlc, 8);
    assert_eq!(can_frame.data, [0x55; 8]);
}

#[test]
fn from_can_frame_test() {
    let can_frame = CanFrame {
        id: CanId::Extended(0x1405_5555),
        is_remote: false,
        data: [0x55; 8],
        dlc: 8,
    };

    let frame = Frame::from_can_frame(&can_frame).unwrap();

    assert_eq!(frame, sample_frame());
}

#[test]
fn from_can_frame_standard_test() {
    let can_frame = CanFrame { id: CanId::Standard(0x123), is_remote: false, data: [0; 8], dlc: 0 };

    assert_eq!(Frame::from_can_frame(&can_frame), Err(FrameError::FrameIsStandard));
}

#[test]
fn from_can_frame_remote_test() {
    let can_frame = CanFrame {
        id: CanId::Extended(0x1405_5555),
        is_remote: true,
        data: [0; 8],
        dlc: 0,
    };

    assert_eq!(Frame::from_can_frame(&can_frame), Err(FrameError::FrameIsRemote));
}

#[test]
fn from_can_frame_frame_id_missing_test() {
    // A multi-frame frame with an empty payload has nowhere to carry
    // the low byte of its frame id.
    let can_frame = CanFrame {
        id: CanId::Extended(0x1400_5555),
        is_remote: false,
        data: [0; 8],
        dlc: 0,
    };

    assert_eq!(Frame::from_can_frame(&can_frame), Err(FrameError::FrameIdMissing));
}

#[test]
fn from_can_frame_canonicalises_single_frame_test() {
    // Extended id with NOT_ERROR set only: a single-frame frame, so the
    // decoder forces the start flag and a zero last-frame id.
    let can_frame = CanFrame {
        id: CanId::Extended(0x1000_1234),
        is_remote: false,
        data: [0xaa, 0xbb, 0, 0, 0, 0, 0, 0],
        dlc: 2,
    };

    let frame = Frame::from_can_frame(&can_frame).unwrap();

    assert!(frame.not_error_flag);
    assert!(frame.start_frame_flag);
    assert!(!frame.multi_frame_flag);
    assert_eq!(frame.frame_id, FrameId::LastFrameId(0));
    assert_eq!(frame.device_address, 0x1234);
    assert_eq!(frame.data_len, 2);
    assert_eq!(frame.data, [0xaa, 0xbb, 0, 0, 0, 0, 0, 0]);
}

#[test]
fn can_round_trip_test() {
    let frame = sample_frame();

    let decoded = Frame::from_can_frame(&frame.to_can_frame()).unwrap();

    assert_eq!(decoded, frame);
}

#[test]
fn from_usart_frame_cobs_error_test() {
    // 0x05 promises four following bytes but only two follow: the
    // record is truncated and does not un-stuff.
    let corrupted = vec![0x05, 0xa5, 0x55];

    assert_eq!(Frame::from_usart_frame(corrupted), Err(FrameError::CobsError));
}

#[test]
fn from_usart_frame_wrong_size_test() {
    // A record that un-stuffs but whose stated payload length does not
    // match the record's size.
    let record = vec![
        0x07, // COBS overhead
        0xa5, // byte 0
        0x55, // frame id
        0x55, // device address
        0x55, // device address
        0x08, // data len: promises eight bytes, none follow
        0x55, // one data byte only
    ];

    assert_eq!(Frame::from_usart_frame(record), Err(FrameError::WrongSize));
}

#[test]
fn from_usart_frame_canonicalises_single_frame_test() {
    // A single-frame record whose start flag is clear on the wire:
    // the decoder canonicalises it.
    let record = vec![
        0x08, // COBS overhead
        0x80, // byte 0: NOT_ERROR only
        0x07, // frame id low byte, ignored for single-frame frames
        0x12, // device address
        0x34, // device address
        0x02, // data len
        0xaa, // data
        0xbb, // data
    ];

    let frame = Frame::from_usart_frame(record).unwrap();

    assert!(frame.not_error_flag);
    assert!(frame.start_frame_flag);
    assert!(!frame.multi_frame_flag);
    assert_eq!(frame.frame_id, FrameId::LastFrameId(0));
    assert_eq!(frame.device_address, 0x1234);
    assert_eq!(frame.data_len, 2);
    assert_eq!(frame.data, [0xaa, 0xbb, 0, 0, 0, 0, 0, 0]);
}

#[test]
fn usart_round_trip_test() {
    let frame = sample_frame();

    let decoded = Frame::from_usart_frame(frame.to_usart_frame()).unwrap();

    assert_eq!(decoded, frame);
}

#[test]
fn delimited_wire_frame_test() {
    let wire = delimited_wire_frame(&vec![0x0e, 0xa5, 0x55]);

    assert_eq!(wire, vec![0x00, 0x03, 0x0e, 0xa5, 0x55]);
}

#[test]
fn wire_form_of_encoded_frame_test() {
    // The full send path of one byte-stream frame: a zero delimiter,
    // the length of the COBS-encoded record, then the record.
    let encoded = sample_frame().to_usart_frame();
    let wire = delimited_wire_frame(&encoded);

    assert_eq!(wire[0], 0x00);
    assert_eq!(wire[1] as usize, encoded.len());
    assert_eq!(&wire[2..], &encoded[..]);
}

#[test]
fn wire_frame_scanner_test() {
    // Garbage, then a delimited three-byte record, then more garbage.
    let stream = [0xaa, 0x12, 0x00, 0x03, 0x0e, 0xa5, 0x55, 0x99];

    let mut scanner = WireFrameScanner::new();
    let mut records = Vec::new();
    for byte in stream {
        if let Some(record) = scanner.feed_byte(byte) {
            records.push(record);
        }
    }

    assert_eq!(records, vec![vec![0x0e, 0xa5, 0x55]]);
    assert!(!scanner.in_frame());
}

#[test]
fn wire_frame_scanner_round_trip_test() {
    // A frame's full wire bytes fed byte by byte come back as the
    // COBS-encoded record and decode to the frame.
    let frame = sample_frame();
    let wire = delimited_wire_frame(&frame.to_usart_frame());

    let mut scanner = WireFrameScanner::new();
    let mut completed = None;
    for byte in wire {
        if let Some(record) = scanner.feed_byte(byte) {
            completed = Some(record);
        }
    }

    let record = completed.unwrap();
    assert_eq!(Frame::from_usart_frame(record).unwrap(), frame);
}

#[test]
fn wire_frame_scanner_zero_length_test() {
    // A zero length byte closes the frame at once with an empty
    // record, which the decoder then rejects.
    let mut scanner = WireFrameScanner::new();
    assert_eq!(scanner.feed_byte(0x00), None);
    assert_eq!(scanner.feed_byte(0x00), Some(vec![]));
    assert!(!scanner.in_frame());
}
