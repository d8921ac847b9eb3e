//! General-purpose events: acknowledgement and raw data transfer.

use vstd::prelude::*;

use crate::convert_packet::{ConvertPacket, ConvertPacketError};
use crate::event::event_code::{ACK_EVENT_CODE, DATA_EVENT_CODE};
use crate::event::EventError;
use crate::event::{
    spec_u16_from_be, spec_u16_hi, spec_u16_lo, u16_from_be, u16_hi, u16_lo,
    lemma_u16_be_round_trip,
};
use crate::packet::{Packet, PacketModel};

verus! {

/// Acknowledges an event that asked for one.
#[derive(Debug, Eq, PartialEq, Ord, PartialOrd, Clone, Copy)]
pub struct AckEvent {
    /// The device the acknowledgement is addressed to.
    pub receiver_address: u16,
    /// The acknowledging device.
    pub transmitter_address: u16,
}

impl View for AckEvent {
    type V = AckEvent;

    open spec fn view(&self) -> AckEvent {
        *self
    }
}

impl ConvertPacket<AckEvent> for AckEvent {
    open spec fn spec_try_from_packet(packet: PacketModel) -> Result<AckEvent, ConvertPacketError> {
        if packet.is_error {
            Err(ConvertPacketError::WrongType)
        } else if packet.data.len() != 4 {
            Err(ConvertPacketError::WrongSize)
        } else if spec_u16_from_be(packet.data[0], packet.data[1]) != ACK_EVENT_CODE {
            Err(ConvertPacketError::Event(EventError::WrongEventType))
        } else {
            Ok(
                AckEvent {
                    receiver_address: packet.device_address,
                    transmitter_address: spec_u16_from_be(packet.data[2], packet.data[3]),
                },
            )
        }
    }

    open spec fn spec_to_packet(&self) -> PacketModel {
        PacketModel {
            is_error: false,
            device_address: self.receiver_address,
            data: seq![
                spec_u16_hi(ACK_EVENT_CODE),
                spec_u16_lo(ACK_EVENT_CODE),
                spec_u16_hi(self.transmitter_address),
                spec_u16_lo(self.transmitter_address),
            ],
        }
    }

    fn try_from_packet(packet: &Packet) -> (r: Result<AckEvent, ConvertPacketError>) {
        if packet.is_error {
            return Err(ConvertPacketError::WrongType);
        }

        if packet.data.len() != 4 {
            return Err(ConvertPacketError::WrongSize);
        }

        if u16_from_be(packet.data[0], packet.data[1]) != ACK_EVENT_CODE {
            return Err(ConvertPacketError::Event(EventError::WrongEventType));
        }

        let receiver_address = packet.device_address;
        let transmitter_address = u16_from_be(packet.data[2], packet.data[3]);

        Ok(AckEvent { receiver_address, transmitter_address })
    }

    fn to_packet(&self) -> (r: Packet) {
        let mut data: Vec<u8> = Vec::new();

        data.push(u16_hi(ACK_EVENT_CODE));
        data.push(u16_lo(ACK_EVENT_CODE));
        data.push(u16_hi(self.transmitter_address));
        data.push(u16_lo(self.transmitter_address));

        let packet = Packet { is_error: false, device_address: self.receiver_address, data };
        proof {
            assert(packet@.data =~= self.spec_to_packet().data);
            assert(packet@ =~= self.spec_to_packet());
        }
        packet
    }
}

/// Law: decoding an encoded acknowledgement gives the event back.
pub proof fn lemma_ack_round_trip(e: AckEvent)
    ensures
        AckEvent::spec_try_from_packet(e.spec_to_packet()) == Ok::<AckEvent, ConvertPacketError>(e),
{
    lemma_u16_be_round_trip(ACK_EVENT_CODE);
    lemma_u16_be_round_trip(e.transmitter_address);
}

/// Carries a chunk of raw bytes, for firmware and configuration
/// transfer.
#[derive(Debug, Eq, PartialEq, Ord, PartialOrd, Clone)]
pub struct DataEvent {
    /// The device the data is addressed to.
    pub receiver_address: u16,
    /// The transmitting device.
    pub transmitter_address: u16,
    /// How many data bytes follow.
    pub data_len: u16,
    /// The data bytes.
    pub data: Vec<u8>,
}

/// Mathematical model of a [`DataEvent`].
#[verifier::ext_equal]
pub ghost struct DataEventModel {
    pub receiver_address: u16,
    pub transmitter_address: u16,
    pub data_len: u16,
    pub data: Seq<u8>,
}

impl View for DataEvent {
    type V = DataEventModel;

    open spec fn view(&self) -> DataEventModel {
        DataEventModel {
            receiver_address: self.receiver_address,
            transmitter_address: self.transmitter_address,
            data_len: self.data_len,
            data: self.data@,
        }
    }
}

/// The packet model a data event model encodes to.
pub open spec fn spec_data_event_packet(e: DataEventModel) -> PacketModel {
    PacketModel {
        is_error: false,
        device_address: e.receiver_address,
        data: seq![
            spec_u16_hi(DATA_EVENT_CODE),
            spec_u16_lo(DATA_EVENT_CODE),
            spec_u16_hi(e.transmitter_address),
            spec_u16_lo(e.transmitter_address),
            spec_u16_hi(e.data_len),
            spec_u16_lo(e.data_len),
        ] + e.data,
    }
}

impl ConvertPacket<DataEvent> for DataEvent {
    open spec fn spec_try_from_packet(packet: PacketModel) -> Result<
        DataEventModel,
        ConvertPacketError,
    > {
        if packet.is_error {
            Err(ConvertPacketError::WrongType)
        } else if packet.data.len() < 6 {
            Err(ConvertPacketError::WrongSize)
        } else if packet.data.len() != spec_u16_from_be(packet.data[4], packet.data[5]) + 6 {
            Err(ConvertPacketError::WrongSize)
        } else if spec_u16_from_be(packet.data[0], packet.data[1]) != DATA_EVENT_CODE {
            Err(ConvertPacketError::Event(EventError::WrongEventType))
        } else {
            Ok(
                DataEventModel {
                    receiver_address: packet.device_address,
                    transmitter_address: spec_u16_from_be(packet.data[2], packet.data[3]),
                    data_len: spec_u16_from_be(packet.data[4], packet.data[5]),
                    data: packet.data.skip(6),
                },
            )
        }
    }

    open spec fn spec_to_packet(&self) -> PacketModel {
        spec_data_event_packet(self@)
    }

    fn try_from_packet(packet: &Packet) -> (r: Result<DataEvent, ConvertPacketError>) {
        if packet.is_error {
            return Err(ConvertPacketError::WrongType);
        }

        if packet.data.len() < 6 {
            return Err(ConvertPacketError::WrongSize);
        }

        let data_len = u16_from_be(packet.data[4], packet.data[5]);

        if packet.data.len() != data_len as usize + 6 {
            return Err(ConvertPacketError::WrongSize);
        }

        if u16_from_be(packet.data[0], packet.data[1]) != DATA_EVENT_CODE {
            return Err(ConvertPacketError::Event(EventError::WrongEventType));
        }

        let receiver_address = packet.device_address;
        let transmitter_address = u16_from_be(packet.data[2], packet.data[3]);

        let mut data: Vec<u8> = Vec::new();
        let mut i: usize = 0;
        while i < data_len as usize
            invariant
                i <= data_len as usize,
                packet.data@.len() == data_len as usize + 6,
                data@ =~= packet.data@.subrange(6, 6 + i as int),
            decreases data_len as usize - i,
        {
            data.push(packet.data[i + 6]);
            i += 1;
        }
        proof {
            assert(data@ =~= packet.data@.skip(6));
        }

        Ok(DataEvent { receiver_address, transmitter_address, data_len, data })
    }

    fn to_packet(&self) -> (r: Packet) {
        let mut data: Vec<u8> = Vec::new();

        data.push(u16_hi(DATA_EVENT_CODE));
        data.push(u16_lo(DATA_EVENT_CODE));
        data.push(u16_hi(self.transmitter_address));
        data.push(u16_lo(self.transmitter_address));
        data.push(u16_hi(self.data_len));
        data.push(u16_lo(self.data_len));

        let mut i: usize = 0;
        while i < self.data.len()
            invariant
                i <= self.data@.len(),
                data@ =~= self.spec_to_packet().data.take(6 + i as int),
            decreases self.data.len() - i,
        {
            data.push(self.data[i]);
            i += 1;
        }

        let packet = Packet { is_error: false, device_address: self.receiver_address, data };
        proof {
            assert(packet@.data =~= self.spec_to_packet().data);
            assert(packet@ =~= self.spec_to_packet());
        }
        packet
    }
}

/// Law: decoding an encoded data event gives the event back, for every
/// data event whose length field matches its data.
pub proof fn lemma_data_round_trip(e: DataEventModel)
    requires
        e.data.len() == e.data_len,
    ensures
        DataEvent::spec_try_from_packet(spec_data_event_packet(e)) == Ok::<
            DataEventModel,
            ConvertPacketError,
        >(e),
{
    lemma_u16_be_round_trip(DATA_EVENT_CODE);
    lemma_u16_be_round_trip(e.transmitter_address);
    lemma_u16_be_round_trip(e.data_len);
    let p = spec_data_event_packet(e);
    assert(p.data.skip(6) =~= e.data);
    assert(DataEvent::spec_try_from_packet(p)->Ok_0 =~= e);
}

} // verus!
