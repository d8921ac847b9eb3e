use std::cell::RefCell;
use std::collections::VecDeque;
use std::rc::Rc;

use ross_protocol::convert_packet::ConvertPacket;
use ross_protocol::event::general::AckEvent;
use ross_protocol::interface::{Interface, InterfaceError, UsartError};
use ross_protocol::packet::Packet;
use ross_protocol::protocol::{PacketHandler, Protocol, ProtocolError, BROADCAST_ADDRESS};

/// A transport scripted by the test: hands out queued receive results
/// and records every packet pushed to the wire.
struct ScriptedInterface {
    incoming: VecDeque<Result<Packet, InterfaceError>>,
    sent: Rc<RefCell<Vec<Packet>>>,
}

impl ScriptedInterface {
    fn new(incoming: Vec<Result<Packet, InterfaceError>>) -> (Self, Rc<RefCell<Vec<Packet>>>) {
        let sent = Rc::new(RefCell::new(Vec::new()));
        (ScriptedInterface { incoming: incoming.into_iter().collect(), sent: sent.clone() }, sent)
    }
}

impl Interface for ScriptedInterface {
    fn try_get_packet(&mut self) -> Result<Packet, InterfaceError> {
        self.incoming.pop_front().unwrap_or(Err(InterfaceError::NoPacketReceived))
    }

    fn try_send_packet(&mut self, packet: &Packet) -> Result<(), InterfaceError> {
        self.sent.borrow_mut().push(packet.clone());
        Ok(())
    }
}

/// A handler that records every packet it is given.
struct RecordingHandler {
    seen: Rc<RefCell<Vec<Packet>>>,
}

impl RecordingHandler {
    fn new() -> (Self, Rc<RefCell<Vec<Packet>>>) {
        let seen = Rc::new(RefCell::new(Vec::new()));
        (RecordingHandler { seen: seen.clone() }, seen)
    }
}

impl PacketHandler<ScriptedInterface> for RecordingHandler {
    fn handle_packet(&mut self, packet: &Packet, _interface: &mut ScriptedInterface) {
        self.seen.borrow_mut().push(packet.clone());
    }
}

fn packet_to(device_address: u16) -> Packet {
    Packet { is_error: false, device_address, data: vec![0x00, 0x03, 0x01, 0x23] }
}

#[test]
fn handler_ids_are_least_unused_test() {
    let (interface, _sent) = ScriptedInterface::new(vec![]);
    let mut protocol = Protocol::new(0x1234, interface);

    let (h0, _) = RecordingHandler::new();
    let (h1, _) = RecordingHandler::new();
    let (h2, _) = RecordingHandler::new();
    assert_eq!(protocol.add_packet_handler(h0, false).unwrap(), 0);
    assert_eq!(protocol.add_packet_handler(h1, false).unwrap(), 1);
    assert_eq!(protocol.add_packet_handler(h2, false).unwrap(), 2);

    protocol.remove_packet_handler(1).unwrap();

    let (h3, _) = RecordingHandler::new();
    assert_eq!(protocol.add_packet_handler(h3, false).unwrap(), 1);

    let (h4, _) = RecordingHandler::new();
    assert_eq!(protocol.add_packet_handler(h4, false).unwrap(), 3);
}

#[test]
fn remove_packet_handler_no_such_handler_test() {
    let (interface, _sent) = ScriptedInterface::new(vec![]);
    let mut protocol: Protocol<ScriptedInterface, RecordingHandler> = Protocol::new(
        0x1234, interface,
    );

    assert!(matches!(protocol.remove_packet_handler(7), Err(ProtocolError::NoSuchHandler)));
}

#[test]
fn send_packet_loopback_test() {
    let (interface, sent) = ScriptedInterface::new(vec![]);
    let mut protocol = Protocol::new(0x1234, interface);

    let (h0, seen0) = RecordingHandler::new();
    let (h1, seen1) = RecordingHandler::new();
    protocol.add_packet_handler(h0, false).unwrap();
    protocol.add_packet_handler(h1, true).unwrap();

    // A packet addressed to the local device: every handler sees it
    // exactly once, nothing goes out on the wire.
    let local_packet = packet_to(0x1234);
    protocol.send_packet(&local_packet).unwrap();
    assert_eq!(*seen0.borrow(), vec![local_packet.clone()]);
    assert_eq!(*seen1.borrow(), vec![local_packet.clone()]);
    assert!(sent.borrow().is_empty());

    // A packet addressed elsewhere: nothing is delivered locally, the
    // wire carries it.
    let foreign_packet = packet_to(0x9999);
    protocol.send_packet(&foreign_packet).unwrap();
    assert_eq!(seen0.borrow().len(), 1);
    assert_eq!(seen1.borrow().len(), 1);
    assert_eq!(*sent.borrow(), vec![foreign_packet.clone()]);

    // A broadcast packet: delivered locally and transmitted.
    let broadcast_packet = packet_to(BROADCAST_ADDRESS);
    protocol.send_packet(&broadcast_packet).unwrap();
    assert_eq!(seen0.borrow().len(), 2);
    assert_eq!(seen1.borrow().len(), 2);
    assert_eq!(sent.borrow().len(), 2);
}

#[test]
fn broadcast_local_device_sends_too_test() {
    let (interface, sent) = ScriptedInterface::new(vec![]);
    let mut protocol = Protocol::new(BROADCAST_ADDRESS, interface);

    let (h0, seen0) = RecordingHandler::new();
    protocol.add_packet_handler(h0, false).unwrap();

    // When the local device is the broadcast address, a self-addressed
    // packet is both delivered locally and transmitted.
    let packet = packet_to(BROADCAST_ADDRESS);
    protocol.send_packet(&packet).unwrap();
    assert_eq!(seen0.borrow().len(), 1);
    assert_eq!(sent.borrow().len(), 1);
}

#[test]
fn tick_address_filter_test() {
    let owned_packet = packet_to(0x1234);
    let broadcast_packet = packet_to(BROADCAST_ADDRESS);
    let foreign_packet = packet_to(0x9999);

    let (interface, _sent) = ScriptedInterface::new(vec![
        Ok(owned_packet.clone()),
        Ok(broadcast_packet.clone()),
        Ok(foreign_packet.clone()),
    ]);
    let mut protocol = Protocol::new(0x1234, interface);

    let (filtered, seen_filtered) = RecordingHandler::new();
    let (capturing, seen_capturing) = RecordingHandler::new();
    protocol.add_packet_handler(filtered, false).unwrap();
    protocol.add_packet_handler(capturing, true).unwrap();

    protocol.tick().unwrap();
    protocol.tick().unwrap();
    protocol.tick().unwrap();

    // The filtered handler sees only owned packets; the capturing one
    // sees everything.
    assert_eq!(*seen_filtered.borrow(), vec![owned_packet.clone(), broadcast_packet.clone()]);
    assert_eq!(
        *seen_capturing.borrow(),
        vec![owned_packet, broadcast_packet, foreign_packet]
    );
}

#[test]
fn tick_no_packet_is_ok_test() {
    let (interface, _sent) = ScriptedInterface::new(vec![]);
    let mut protocol: Protocol<ScriptedInterface, RecordingHandler> = Protocol::new(
        0x1234, interface,
    );

    assert!(protocol.tick().is_ok());
}

#[test]
fn tick_propagates_transport_errors_test() {
    let (interface, _sent) = ScriptedInterface::new(vec![
        Err(InterfaceError::UsartError(UsartError::ReadError)),
    ]);
    let mut protocol: Protocol<ScriptedInterface, RecordingHandler> = Protocol::new(
        0x1234, interface,
    );

    assert!(matches!(
        protocol.tick(),
        Err(ProtocolError::InterfaceError(InterfaceError::UsartError(UsartError::ReadError)))
    ));
}

#[test]
fn exchange_packet_returns_first_matching_reply_test() {
    // An unrelated reply (wrong event code), then two acknowledgements.
    let unrelated = Packet {
        is_error: false,
        device_address: 0x1234,
        data: vec![0x00, 0x09],
    };
    let first_ack = Packet {
        is_error: false,
        device_address: 0x1234,
        data: vec![0x00, 0x03, 0x00, 0x01],
    };
    let second_ack = Packet {
        is_error: false,
        device_address: 0x1234,
        data: vec![0x00, 0x03, 0x00, 0x02],
    };

    let (interface, _sent) = ScriptedInterface::new(vec![
        Ok(unrelated),
        Ok(first_ack),
        Ok(second_ack),
    ]);
    let mut protocol: Protocol<ScriptedInterface, RecordingHandler> = Protocol::new(
        0x1234, interface,
    );

    let request = packet_to(0x9999);
    let reply: AckEvent = protocol.exchange_packet(request, false, || {}).unwrap();

    assert_eq!(reply.transmitter_address, 0x0001);
}

#[test]
fn exchange_packet_skips_foreign_replies_test() {
    // A decodable acknowledgement addressed to another device is not
    // accepted when the exchange does not capture all addresses.
    let foreign_ack = Packet {
        is_error: false,
        device_address: 0x9999,
        data: vec![0x00, 0x03, 0x00, 0x01],
    };
    let own_ack = Packet {
        is_error: false,
        device_address: 0x1234,
        data: vec![0x00, 0x03, 0x00, 0x02],
    };

    let (interface, _sent) = ScriptedInterface::new(vec![Ok(foreign_ack), Ok(own_ack)]);
    let mut protocol: Protocol<ScriptedInterface, RecordingHandler> = Protocol::new(
        0x1234, interface,
    );

    let reply: AckEvent = protocol.exchange_packet(packet_to(0x9999), false, || {}).unwrap();

    assert_eq!(reply.transmitter_address, 0x0002);
}

#[test]
fn exchange_packet_capture_all_accepts_foreign_replies_test() {
    let foreign_ack = Packet {
        is_error: false,
        device_address: 0x9999,
        data: vec![0x00, 0x03, 0x00, 0x01],
    };

    let (interface, _sent) = ScriptedInterface::new(vec![Ok(foreign_ack)]);
    let mut protocol: Protocol<ScriptedInterface, RecordingHandler> = Protocol::new(
        0x1234, interface,
    );

    let reply: AckEvent = protocol.exchange_packet(packet_to(0x9999), true, || {}).unwrap();

    assert_eq!(reply.transmitter_address, 0x0001);
}

#[test]
fn exchange_packet_times_out_test() {
    let unrelated = Packet {
        is_error: false,
        device_address: 0x1234,
        data: vec![0x00, 0x09],
    };

    let (interface, _sent) = ScriptedInterface::new(vec![Ok(unrelated)]);
    let mut protocol: Protocol<ScriptedInterface, RecordingHandler> = Protocol::new(
        0x1234, interface,
    );

    let reply: Result<AckEvent, ProtocolError> = protocol.exchange_packet(
        packet_to(0x9999),
        false,
        || {},
    );

    assert!(matches!(reply, Err(ProtocolError::PacketTimeout)));
}

#[test]
fn exchange_packets_returns_all_matching_replies_test() {
    let unrelated = Packet {
        is_error: false,
        device_address: 0x1234,
        data: vec![0x00, 0x09],
    };
    let first_ack = Packet {
        is_error: false,
        device_address: 0x1234,
        data: vec![0x00, 0x03, 0x00, 0x01],
    };
    let second_ack = Packet {
        is_error: false,
        device_address: BROADCAST_ADDRESS,
        data: vec![0x00, 0x03, 0x00, 0x02],
    };

    let (interface, _sent) = ScriptedInterface::new(vec![
        Ok(unrelated),
        Ok(first_ack),
        Ok(second_ack),
    ]);
    let mut protocol: Protocol<ScriptedInterface, RecordingHandler> = Protocol::new(
        0x1234, interface,
    );

    let replies: Vec<AckEvent> = protocol.exchange_packets(packet_to(0x9999), false, || {}).unwrap();

    assert_eq!(replies.len(), 2);
    assert_eq!(replies[0].transmitter_address, 0x0001);
    assert_eq!(replies[1].transmitter_address, 0x0002);
}
