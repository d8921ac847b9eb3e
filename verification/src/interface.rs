//! The transport capability and the receive state machine every
//! transport shares.
//!
//! A concrete transport (a CAN controller, a UART, a host serial port)
//! implements [`Interface`]: it drains whatever frames its wire holds
//! and pushes frames out.  The reassembly that every implementation
//! performs between the wire and the packet — opening a builder on a
//! start frame, feeding it the following frames, resetting it on any
//! error — is [`feed_frame`].

use vstd::prelude::*;

use crate::frame::{Frame, FrameError, FrameModel};
use crate::packet::{
    spec_builder_add, spec_builder_build, spec_builder_new, BuilderModel, Packet, PacketBuilder,
    PacketBuilderError, PacketModel,
};

verus! {

/// Errors of the CAN transport.
#[derive(Debug, PartialEq, Eq, Clone, Copy)]
pub enum CanError {
    /// The controller dropped a received frame.
    BufferOverrun,
    /// No transmit mailbox accepted the frame.
    MailboxFull,
}

/// Errors of the embedded UART transport.
#[derive(Debug, PartialEq, Eq, Clone, Copy)]
pub enum UsartError {
    /// A byte could not be read.
    ReadError,
}

/// Errors of the host serial-port transport.
#[derive(Debug, PartialEq, Eq, Clone, Copy)]
pub enum SerialError {
    /// The port could not be read.
    ReadError,
    /// The port could not be written.
    WriteError,
}

/// Everything a transport can report.
#[derive(Debug, PartialEq, Eq, Clone, Copy)]
pub enum InterfaceError {
    /// The CAN transport failed.
    CanError(CanError),
    /// The UART transport failed.
    UsartError(UsartError),
    /// The serial-port transport failed.
    SerialError(SerialError),
    /// A frame could not be absorbed into the packet under reassembly.
    BuilderError(PacketBuilderError),
    /// A frame could not be decoded from the wire.
    FrameError(FrameError),
    /// The wire held no complete packet; not a failure.
    NoPacketReceived,
}

/// The transport capability: everything the dispatcher asks of a wire.
pub trait Interface {
    /// Drains the immediately available input and returns a packet as
    /// soon as one completes; `NoPacketReceived` when the input is
    /// exhausted first.
    fn try_get_packet(&mut self) -> Result<Packet, InterfaceError>;

    /// Splits a packet into frames and pushes each to the wire.
    fn try_send_packet(&mut self, packet: &Packet) -> Result<(), InterfaceError>;
}

/// The reassembly state at the model level.
pub open spec fn spec_reassembly_view(b: Option<PacketBuilder>) -> Option<BuilderModel> {
    match b {
        Some(pb) => Some(pb@),
        None => None,
    }
}

/// The builder a transport owns between receives, seen at the model
/// level: either no packet is under reassembly, or a well-formed
/// builder holds the frames so far.
pub open spec fn spec_reassembly_wf(b: Option<BuilderModel>) -> bool {
    match b {
        Some(m) => PacketBuilder::wf(m),
        None => true,
    }
}

/// What absorbing one frame does to the reassembly state: the new
/// state, and what the caller is told.
pub open spec fn spec_feed_frame(b: Option<BuilderModel>, f: FrameModel) -> (
    Option<BuilderModel>,
    Result<Option<PacketModel>, InterfaceError>,
) {
    let fed = match b {
        Some(m) => spec_builder_add(m, f),
        None => spec_builder_new(f),
    };
    match fed {
        Err(e) => (None, Err(InterfaceError::BuilderError(e))),
        Ok(m) => if m.frames.len() == m.expected_frame_count {
            match spec_builder_build(m) {
                Ok(p) => (None, Ok(Some(p))),
                Err(e) => (None, Err(InterfaceError::BuilderError(e))),
            }
        } else {
            (Some(m), Ok(None))
        },
    }
}

/// Absorbs one decoded frame into the reassembly state a transport
/// keeps between receives.
///
/// A start frame opens a builder, every further frame is fed to it, and
/// the builder is reset on any error and on a completed packet.  Returns
/// `Ok(Some(packet))` exactly when the frame completed a packet.
pub fn feed_frame(builder: &mut Option<PacketBuilder>, frame: Frame) -> (r: Result<
    Option<Packet>,
    InterfaceError,
>)
    requires
        spec_reassembly_wf(spec_reassembly_view(*old(builder))),
        frame@.frame_id.value() <= 0xfff,
        frame@.data_len <= 8,
    ensures
        spec_reassembly_wf(spec_reassembly_view(*final (builder))),
        ({
            let (b2, r2) = spec_feed_frame(spec_reassembly_view(*old(builder)), frame@);
            &&& spec_reassembly_view(*final (builder)) == b2
            &&& (match (r, r2) {
                (Ok(Some(p)), Ok(Some(pm))) => p@ == pm,
                (Ok(None), Ok(None)) => true,
                (Err(e), Err(e2)) => e == e2,
                _ => false,
            })
        }),
{
    let fed = match builder.take() {
        Some(mut b) => {
            match b.add_frame(frame) {
                Ok(()) => Ok(b),
                Err(e) => Err(e),
            }
        },
        None => PacketBuilder::new(frame),
    };

    match fed {
        Err(e) => Err(InterfaceError::BuilderError(e)),
        Ok(b) => {
            if b.frames_left() == 0 {
                match b.build() {
                    Ok(p) => Ok(Some(p)),
                    Err(e) => Err(InterfaceError::BuilderError(e)),
                }
            } else {
                *builder = Some(b);
                Ok(None)
            }
        },
    }
}

} // verus!
