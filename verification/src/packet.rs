//! The application-level unit and its reassembly from frames.
//!
//! A [`Packet`] carries a variable-length payload.  Sending splits it
//! into one or more [`Frame`]s ([`Packet::to_frames`]); receiving feeds
//! an ordered frame stream into a [`PacketBuilder`], which enforces
//! strict sequencing, type consistency and source-device consistency.

use vstd::prelude::*;

use crate::frame::{Frame, FrameId, FrameModel};

verus! {

broadcast use vstd::array::group_array_axioms;

/// A packet's payload may span at most 4096 frames of seven payload
/// bytes each, because the frame id that numbers the frames is a 12-bit
/// value.
pub const MAX_PACKET_DATA_LEN: usize = 28672;

/// The full application-level unit.
#[derive(Debug, PartialEq, Clone)]
pub struct Packet {
    /// If this flag is set, the packet is an error packet.
    pub is_error: bool,
    /// Transmitting device's address.
    pub device_address: u16,
    /// Packet data.
    pub data: Vec<u8>,
}

/// Mathematical model of a [`Packet`].
#[verifier::ext_equal]
pub ghost struct PacketModel {
    pub is_error: bool,
    pub device_address: u16,
    pub data: Seq<u8>,
}

impl View for Packet {
    type V = PacketModel;

    open spec fn view(&self) -> PacketModel {
        PacketModel { is_error: self.is_error, device_address: self.device_address, data: self.data@ }
    }
}

/// How many frames a payload of `len` bytes splits into: one frame holds
/// up to eight bytes; beyond that, every frame gives up its first byte to
/// the frame id, leaving seven payload bytes each.
pub open spec fn spec_frame_count(len: nat) -> nat {
    if len <= 8 {
        1
    } else {
        ((len - 1) / 7 + 1) as nat
    }
}

/// The single frame a packet of at most eight payload bytes becomes.
pub open spec fn spec_single_frame(p: PacketModel) -> FrameModel {
    FrameModel {
        not_error_flag: !p.is_error,
        start_frame_flag: true,
        multi_frame_flag: false,
        frame_id: FrameId::LastFrameId(0),
        device_address: p.device_address,
        data_len: p.data.len() as u8,
        data: Seq::new(8, |i: int| if i < p.data.len() { p.data[i] } else { 0 }),
    }
}

/// The payload bytes a multi-frame split carries in frame `i`: eight for
/// every frame but the last, which holds what remains of the payload
/// plus the frame-id byte.
pub open spec fn spec_multi_frame_data_len(len: nat, i: int) -> nat {
    if i == spec_frame_count(len) - 1 {
        if len % 7 == 0 {
            8
        } else {
            len % 7 + 1
        }
    } else {
        8
    }
}

/// Frame `i` of the multi-frame split of packet `p`: byte 0 carries the
/// low byte of the frame id, the rest carry the payload slice starting
/// at `7 * i`.
pub open spec fn spec_multi_frame(p: PacketModel, i: int) -> FrameModel {
    let n = spec_frame_count(p.data.len()) as int;
    let dl = spec_multi_frame_data_len(p.data.len(), i) as int;
    let id_byte: u8 = if i == 0 {
        (((n - 1) % 256) as u8)
    } else {
        ((i % 256) as u8)
    };
    FrameModel {
        not_error_flag: !p.is_error,
        start_frame_flag: i == 0,
        multi_frame_flag: true,
        frame_id: if i == 0 {
            FrameId::LastFrameId((n - 1) as u16)
        } else {
            FrameId::CurrentFrameId(i as u16)
        },
        device_address: p.device_address,
        data_len: dl as u8,
        data: Seq::new(
            8,
            |j: int|
                if j == 0 {
                    id_byte
                } else if j < dl {
                    p.data[i * 7 + j - 1]
                } else {
                    0
                },
        ),
    }
}

/// The frames a packet splits into, in transmit order.
pub open spec fn spec_to_frames(p: PacketModel) -> Seq<FrameModel> {
    if p.data.len() <= 8 {
        seq![spec_single_frame(p)]
    } else {
        Seq::new(spec_frame_count(p.data.len()), |i: int| spec_multi_frame(p, i))
    }
}

impl Packet {
    /// Splits this packet into the frames that carry it on a wire.
    pub fn to_frames(&self) -> (r: Vec<Frame>)
        requires
            self@.data.len() <= MAX_PACKET_DATA_LEN,
        ensures
            r@.map_values(|f: Frame| f@) == spec_to_frames(self@),
            r@.len() == spec_frame_count(self@.data.len()),
    {
        if self.data.len() <= 8 {
            let mut data: [u8; 8] = [0; 8];
            let mut i: usize = 0;
            while i < self.data.len()
                invariant
                    i <= self.data.len() <= 8,
                    forall|j: int| 0 <= j < i ==> data@[j] == self@.data[j],
                    forall|j: int| i <= j < 8 ==> data@[j] == 0,
                decreases self.data.len() - i,
            {
                data[i] = self.data[i];
                i += 1;
            }

            let frame = Frame {
                not_error_flag: !self.is_error,
                start_frame_flag: true,
                multi_frame_flag: false,
                frame_id: FrameId::LastFrameId(0),
                device_address: self.device_address,
                data_len: self.data.len() as u8,
                data,
            };
            let mut frames: Vec<Frame> = Vec::new();
            frames.push(frame);
            proof {
                assert(frame@.data =~= spec_single_frame(self@).data);
                assert(frame@ =~= spec_single_frame(self@));
                assert(frames@.map_values(|f: Frame| f@) =~= spec_to_frames(self@));
            }
            return frames;
        }

        let frame_count: usize = (self.data.len() - 1) / 7 + 1;
        let mut frames: Vec<Frame> = Vec::new();

        let mut i: usize = 0;
        while i < frame_count
            invariant
                frame_count == spec_frame_count(self@.data.len()),
                8 < self@.data.len() <= MAX_PACKET_DATA_LEN,
                frame_count <= 4096,
                i <= frame_count,
                frames@.len() == i,
                forall|k: int| 0 <= k < i ==> frames@.map_values(|f: Frame| f@)[k]
                    == spec_multi_frame(self@, k),
            decreases frame_count - i,
        {
            let data_len: usize = if i == frame_count - 1 {
                if self.data.len() % 7 == 0 {
                    8
                } else {
                    self.data.len() % 7 + 1
                }
            } else {
                8
            };

            let mut data: [u8; 8] = [0; 8];
            if i == 0 {
                data[0] = ((frame_count - 1) % 256) as u8;
            } else {
                data[0] = (i % 256) as u8;
            }

            let mut j: usize = 0;
            while j < data_len - 1
                invariant
                    1 <= data_len <= 8,
                    i < frame_count,
                    frame_count == spec_frame_count(self@.data.len()),
                    8 < self@.data.len() <= MAX_PACKET_DATA_LEN,
                    data_len == spec_multi_frame_data_len(self@.data.len(), i as int),
                    j <= data_len - 1,
                    i * 7 + data_len - 1 <= self@.data.len(),
                    data@[0] == (if i == 0 {
                        (((frame_count - 1) % 256) as u8)
                    } else {
                        ((i % 256) as u8)
                    }),
                    forall|k: int| 1 <= k < j + 1 ==> data@[k] == self@.data[i * 7 + k - 1],
                    forall|k: int| j + 1 <= k < 8 ==> data@[k] == 0,
                decreases data_len - 1 - j,
            {
                data[j + 1] = self.data[i * 7 + j];
                j += 1;
            }

            let frame = Frame {
                not_error_flag: !self.is_error,
                start_frame_flag: i == 0,
                multi_frame_flag: true,
                frame_id: if i == 0 {
                    FrameId::LastFrameId((frame_count - 1) as u16)
                } else {
                    FrameId::CurrentFrameId(i as u16)
                },
                device_address: self.device_address,
                data_len: data_len as u8,
                data,
            };
            proof {
                assert(frame@.data =~= spec_multi_frame(self@, i as int).data);
                assert(frame@ =~= spec_multi_frame(self@, i as int));
            }
            frames.push(frame);
            i += 1;
        }

        proof {
            assert(frames@.map_values(|f: Frame| f@) =~= spec_to_frames(self@));
        }
        frames
    }
}

/// Everything that can go wrong while reassembling a packet.
#[derive(Debug, PartialEq, Eq, Clone, Copy)]
pub enum PacketBuilderError {
    /// Frame supplied was not the next frame in the sequence.
    OutOfOrder,
    /// Expected a multi-frame packet but a single-frame packet was given.
    SingleFramePacket,
    /// Expected fewer frames to be in the packet.
    TooManyFrames,
    /// Expected an error frame but a data frame was given, or the other
    /// way around.
    WrongFrameType,
    /// The frame given was transmitted by a different device than the
    /// previous frames.
    DeviceAddressMismatch,
    /// Expected more frames.
    MissingFrames,
}

/// Ephemeral reassembly state: opened on a start frame, fed the
/// following frames in order, closed by [`PacketBuilder::build`].
#[derive(Debug, PartialEq)]
pub struct PacketBuilder {
    is_error: bool,
    expected_frame_count: u16,
    device_address: u16,
    frames: Vec<Frame>,
}

/// Mathematical model of a [`PacketBuilder`].
#[verifier::ext_equal]
pub ghost struct BuilderModel {
    pub is_error: bool,
    pub expected_frame_count: u16,
    pub device_address: u16,
    pub frames: Seq<FrameModel>,
}

impl View for PacketBuilder {
    type V = BuilderModel;

    closed spec fn view(&self) -> BuilderModel {
        BuilderModel {
            is_error: self.is_error,
            expected_frame_count: self.expected_frame_count,
            device_address: self.device_address,
            frames: self.frames@.map_values(|f: Frame| f@),
        }
    }
}

/// What opening a builder on `f` yields: the frame must be a start frame
/// carrying a last-frame id, which fixes how many frames are expected.
pub open spec fn spec_builder_new(f: FrameModel) -> Result<BuilderModel, PacketBuilderError> {
    if !f.start_frame_flag {
        Err(PacketBuilderError::OutOfOrder)
    } else {
        match f.frame_id {
            FrameId::CurrentFrameId(_) => Err(PacketBuilderError::OutOfOrder),
            FrameId::LastFrameId(last_frame_id) => Ok(
                BuilderModel {
                    is_error: !f.not_error_flag,
                    expected_frame_count: (last_frame_id + 1) as u16,
                    device_address: f.device_address,
                    frames: seq![f],
                },
            ),
        }
    }
}

/// What feeding `f` to builder `b` yields: the exact validation order of
/// the error taxonomy, then the frame appended.
pub open spec fn spec_builder_add(b: BuilderModel, f: FrameModel) -> Result<
    BuilderModel,
    PacketBuilderError,
> {
    if (!f.not_error_flag) != b.is_error {
        Err(PacketBuilderError::WrongFrameType)
    } else if f.device_address != b.device_address {
        Err(PacketBuilderError::DeviceAddressMismatch)
    } else if f.start_frame_flag {
        Err(PacketBuilderError::OutOfOrder)
    } else if !f.multi_frame_flag {
        Err(PacketBuilderError::SingleFramePacket)
    } else {
        match f.frame_id {
            FrameId::LastFrameId(_) => Err(PacketBuilderError::OutOfOrder),
            FrameId::CurrentFrameId(frame_id) => if frame_id != b.frames.len() {
                Err(PacketBuilderError::OutOfOrder)
            } else if frame_id >= b.expected_frame_count {
                Err(PacketBuilderError::TooManyFrames)
            } else {
                Ok(BuilderModel { frames: b.frames.push(f), ..b })
            },
        }
    }
}

/// The payload bytes one frame contributes to the packet: everything up
/// to `data_len`, except the frame-id byte of a multi-frame frame.  A
/// multi-frame frame with an empty payload contributes nothing.
pub open spec fn spec_frame_payload(f: FrameModel) -> Seq<u8> {
    let start = if f.multi_frame_flag {
        1int
    } else {
        0int
    };
    let end = if f.data_len < start {
        start
    } else {
        f.data_len as int
    };
    f.data.subrange(start, end)
}

/// The concatenation of the payloads of `frames`, in order.
pub open spec fn spec_assemble(frames: Seq<FrameModel>) -> Seq<u8>
    decreases frames.len(),
{
    if frames.len() == 0 {
        Seq::empty()
    } else {
        spec_assemble(frames.drop_last()) + spec_frame_payload(frames.last())
    }
}

/// What closing builder `b` yields: the packet, once every expected
/// frame has arrived.
pub open spec fn spec_builder_build(b: BuilderModel) -> Result<PacketModel, PacketBuilderError> {
    if b.frames.len() != b.expected_frame_count {
        Err(PacketBuilderError::MissingFrames)
    } else {
        Ok(
            PacketModel {
                is_error: b.is_error,
                device_address: b.device_address,
                data: spec_assemble(b.frames),
            },
        )
    }
}

impl PacketBuilder {
    /// A builder holds the start frame and at most as many frames as it
    /// expects, each of which fits the eight-byte frame buffer.
    pub open spec fn wf(b: BuilderModel) -> bool {
        &&& 1 <= b.frames.len() <= b.expected_frame_count
        &&& forall|k: int|
            0 <= k < b.frames.len() ==> (#[trigger] b.frames[k]).data_len <= 8 && b.frames[
                k
            ].data.len() == 8
    }

    /// How many frames this packet is expected to span.
    pub fn expected_frame_count(&self) -> (r: u16)
        ensures
            r == self@.expected_frame_count,
    {
        self.expected_frame_count
    }

    /// How many frames have arrived so far.
    pub fn frame_count(&self) -> (r: u16)
        requires
            Self::wf(self@),
        ensures
            r == self@.frames.len(),
    {
        self.frames.len() as u16
    }

    /// How many frames are still missing.
    pub fn frames_left(&self) -> (r: u16)
        requires
            Self::wf(self@),
        ensures
            r == self@.expected_frame_count - self@.frames.len(),
    {
        self.expected_frame_count() - self.frame_count()
    }

    /// Opens a builder on the start frame of a packet.  Fails with
    /// `OutOfOrder` if the frame is no start frame or carries no
    /// last-frame id.
    pub fn new(frame: Frame) -> (r: Result<Self, PacketBuilderError>)
        requires
            frame@.frame_id.value() <= 0xfff,
            frame@.data_len <= 8,
        ensures
            match r {
                Ok(b) => spec_builder_new(frame@) == Ok::<BuilderModel, PacketBuilderError>(b@)
                    && Self::wf(b@),
                Err(e) => spec_builder_new(frame@) == Err::<BuilderModel, PacketBuilderError>(e),
            },
    {
        if !frame.start_frame_flag {
            return Err(PacketBuilderError::OutOfOrder);
        }

        let expected_frame_count = match frame.frame_id {
            FrameId::LastFrameId(last_frame_id) => last_frame_id + 1,
            FrameId::CurrentFrameId(_) => {
                return Err(PacketBuilderError::OutOfOrder);
            },
        };

        let is_error = !frame.not_error_flag;
        let device_address = frame.device_address;
        let mut frames: Vec<Frame> = Vec::new();
        frames.push(frame);
        proof {
            assert(frames@.map_values(|f: Frame| f@) =~= seq![frame@]);
        }

        Ok(PacketBuilder { is_error, expected_frame_count, device_address, frames })
    }

    /// Feeds the next frame of the packet to the builder, validating it
    /// against the error taxonomy in the documented order.
    pub fn add_frame(&mut self, frame: Frame) -> (r: Result<(), PacketBuilderError>)
        requires
            Self::wf(old(self)@),
            frame@.data_len <= 8,
        ensures
            Self::wf(final (self)@),
            match r {
                Ok(()) => spec_builder_add(old(self)@, frame@) == Ok::<
                    BuilderModel,
                    PacketBuilderError,
                >(final (self)@),
                Err(e) => {
                    &&& spec_builder_add(old(self)@, frame@) == Err::<
                        BuilderModel,
                        PacketBuilderError,
                    >(e)
                    &&& final (self)@ == old(self)@
                },
            },
    {
        if !frame.not_error_flag != self.is_error {
            return Err(PacketBuilderError::WrongFrameType);
        }

        if frame.device_address != self.device_address {
            return Err(PacketBuilderError::DeviceAddressMismatch);
        }

        if frame.start_frame_flag {
            return Err(PacketBuilderError::OutOfOrder);
        }

        if !frame.multi_frame_flag {
            return Err(PacketBuilderError::SingleFramePacket);
        }

        let frame_id = match frame.frame_id {
            FrameId::CurrentFrameId(frame_id) => frame_id,
            FrameId::LastFrameId(_) => {
                return Err(PacketBuilderError::OutOfOrder);
            },
        };

        if frame_id as usize != self.frames.len() {
            return Err(PacketBuilderError::OutOfOrder);
        }

        if frame_id >= self.expected_frame_count {
            return Err(PacketBuilderError::TooManyFrames);
        }

        self.frames.push(frame);

        proof {
            assert(self@.frames =~= old(self)@.frames.push(frame@));
            assert(self@ =~= BuilderModel { frames: old(self)@.frames.push(frame@), ..old(self)@ });
        }
        Ok(())
    }

    /// Closes the builder: fails with `MissingFrames` until every
    /// expected frame has arrived, then concatenates the frame payloads
    /// into the packet.
    pub fn build(&self) -> (r: Result<Packet, PacketBuilderError>)
        requires
            Self::wf(self@),
        ensures
            match r {
                Ok(p) => spec_builder_build(self@) == Ok::<PacketModel, PacketBuilderError>(p@),
                Err(e) => spec_builder_build(self@) == Err::<PacketModel, PacketBuilderError>(e),
            },
    {
        if self.frames.len() != self.expected_frame_count as usize {
            return Err(PacketBuilderError::MissingFrames);
        }

        let ghost models = self@.frames;
        let mut data: Vec<u8> = Vec::new();
        let mut i: usize = 0;
        while i < self.frames.len()
            invariant
                Self::wf(self@),
                i <= self.frames@.len(),
                models == self@.frames,
                data@ == spec_assemble(models.take(i as int)),
            decreases self.frames@.len() - i,
        {
            let frame: &Frame = &self.frames[i];
            proof {
                assert(self@.frames[i as int] == self.frames@[i as int]@);
                assert(self@.frames[i as int].data_len <= 8);
            }
            let start_index: usize = if frame.multi_frame_flag {
                1
            } else {
                0
            };
            let data_len = frame.data_len as usize;

            let mut j: usize = start_index;
            while j < data_len
                invariant
                    i < self.frames@.len(),
                    models == self@.frames,
                    Self::wf(self@),
                    frame == &self.frames@[i as int],
                    start_index == (if frame.multi_frame_flag {
                        1int
                    } else {
                        0int
                    }),
                    data_len == frame.data_len as int,
                    data_len <= 8,
                    start_index <= j <= 8,
                    j <= data_len || j == start_index,
                    frame@ == models[i as int],
                    data@ == spec_assemble(models.take(i as int)) + frame@.data.subrange(
                        start_index as int,
                        j as int,
                    ),
                decreases data_len - j,
            {
                data.push(frame.data[j]);
                j += 1;
            }
            proof {
                assert(frame@.data.subrange(start_index as int, j as int) =~= spec_frame_payload(
                    frame@,
                ));
                assert(models.take(i + 1).drop_last() =~= models.take(i as int));
                assert(models.take(i + 1).last() == models[i as int]);
            }
            i += 1;
        }

        proof {
            assert(models.take(models.len() as int) =~= models);
        }
        Ok(Packet { is_error: self.is_error, device_address: self.device_address, data })
    }
}


/// Feeding a sequence of frames to a builder, stopping at the first
/// rejected frame.
pub open spec fn spec_feed_frames(b: BuilderModel, frames: Seq<FrameModel>) -> Result<
    BuilderModel,
    PacketBuilderError,
>
    decreases frames.len(),
{
    if frames.len() == 0 {
        Ok(b)
    } else {
        match spec_builder_add(b, frames[0]) {
            Ok(b2) => spec_feed_frames(b2, frames.skip(1)),
            Err(e) => Err(e),
        }
    }
}

/// The builder state after the first `k` frames of the multi-frame
/// split of `p` have been accepted.
pub open spec fn spec_split_builder(p: PacketModel, k: int) -> BuilderModel {
    BuilderModel {
        is_error: p.is_error,
        expected_frame_count: spec_frame_count(p.data.len()) as u16,
        device_address: p.device_address,
        frames: spec_to_frames(p).take(k),
    }
}

proof fn lemma_assemble_prefix(p: PacketModel, k: int)
    requires
        8 < p.data.len() <= MAX_PACKET_DATA_LEN,
        0 <= k <= spec_frame_count(p.data.len()),
    ensures
        spec_assemble(spec_to_frames(p).take(k)) == (if k < spec_frame_count(p.data.len()) {
            p.data.take(7 * k)
        } else {
            p.data
        }),
    decreases k,
{
    let frames = spec_to_frames(p);
    let len = p.data.len();
    let n = spec_frame_count(len) as int;
    if k == 0 {
        assert(frames.take(0) =~= Seq::<FrameModel>::empty());
        assert(p.data.take(0) =~= Seq::<u8>::empty());
    } else {
        lemma_assemble_prefix(p, k - 1);
        assert(frames.take(k).drop_last() =~= frames.take(k - 1));
        assert(frames.take(k).last() == spec_multi_frame(p, k - 1));
        let f = spec_multi_frame(p, k - 1);
        let dl = spec_multi_frame_data_len(len, k - 1) as int;
        assert(7 * (n - 1) <= len - 1);
        if k - 1 < n - 1 {
            assert(dl == 8);
            assert(7 * k <= 7 * (n - 1));
            assert(spec_frame_payload(f) =~= p.data.subrange(7 * (k - 1), 7 * k));
            assert(p.data.take(7 * (k - 1)) + p.data.subrange(7 * (k - 1), 7 * k) =~= p.data.take(
                7 * k,
            ));
        } else {
            assert(k == n);
            if len % 7 == 0 {
                assert(dl == 8);
                assert(7 * (n - 1) == len - 7);
            } else {
                assert(dl == len % 7 + 1);
                assert(7 * (n - 1) == len - len % 7);
            }
            assert(spec_frame_payload(f) =~= p.data.subrange(7 * (k - 1), len as int));
            assert(p.data.take(7 * (k - 1)) + p.data.subrange(7 * (k - 1), len as int) =~= p.data);
        }
    }
}

proof fn lemma_feed_from(p: PacketModel, j: int)
    requires
        8 < p.data.len() <= MAX_PACKET_DATA_LEN,
        1 <= j <= spec_frame_count(p.data.len()),
    ensures
        spec_feed_frames(spec_split_builder(p, j), spec_to_frames(p).skip(j)) == Ok::<
            BuilderModel,
            PacketBuilderError,
        >(spec_split_builder(p, spec_frame_count(p.data.len()) as int)),
    decreases spec_frame_count(p.data.len()) - j,
{
    let frames = spec_to_frames(p);
    let n = spec_frame_count(p.data.len()) as int;
    assert(n <= 4096);
    if j == n {
        assert(frames.skip(j).len() == 0);
    } else {
        let b = spec_split_builder(p, j);
        let f = frames[j];
        assert(f == spec_multi_frame(p, j));
        assert(frames.skip(j)[0] == f);
        assert(b.frames.len() == j);
        assert(spec_builder_add(b, f) == Ok::<BuilderModel, PacketBuilderError>(
            BuilderModel { frames: b.frames.push(f), ..b },
        ));
        assert(b.frames.push(f) =~= frames.take(j + 1));
        assert(frames.skip(j).skip(1) =~= frames.skip(j + 1));
        lemma_feed_from(p, j + 1);
    }
}

/// Law: splitting a packet and reassembling the frames gives the packet
/// back.  For any packet whose payload fits the 12-bit frame numbering,
/// a builder opened on the first frame of `to_frames` and fed the
/// remaining frames in order builds exactly that packet.
pub proof fn lemma_split_round_trip(p: PacketModel)
    requires
        p.data.len() <= MAX_PACKET_DATA_LEN,
    ensures
        ({
            let frames = spec_to_frames(p);
            let opened = spec_builder_new(frames[0]);
            &&& frames.len() >= 1
            &&& opened is Ok
            &&& spec_feed_frames(opened->Ok_0, frames.skip(1)) is Ok
            &&& spec_builder_build(spec_feed_frames(opened->Ok_0, frames.skip(1))->Ok_0) == Ok::<
                PacketModel,
                PacketBuilderError,
            >(p)
        }),
{
    let frames = spec_to_frames(p);
    let len = p.data.len();
    let n = spec_frame_count(len) as int;
    if len <= 8 {
        let f0 = spec_single_frame(p);
        assert(frames[0] == f0);
        let b = spec_builder_new(f0)->Ok_0;
        assert(b.frames =~= seq![f0]);
        assert(frames.skip(1).len() == 0);
        assert(spec_feed_frames(b, frames.skip(1)) == Ok::<BuilderModel, PacketBuilderError>(b));
        assert(spec_assemble(b.frames.drop_last()) =~= Seq::<u8>::empty());
        assert(spec_frame_payload(f0) =~= p.data);
        assert(spec_builder_build(b)->Ok_0 =~= p);
    } else {
        let f0 = spec_multi_frame(p, 0);
        assert(frames[0] == f0);
        assert(n - 1 <= 0xfff);
        let b = spec_builder_new(f0)->Ok_0;
        assert(b =~= spec_split_builder(p, 1)) by {
            assert(b.frames =~= frames.take(1));
        }
        lemma_feed_from(p, 1);
        assert(frames.skip(1) =~= spec_to_frames(p).skip(1));
        let bn = spec_split_builder(p, n);
        assert(bn.frames =~= frames);
        assert(bn.frames.len() == n);
        lemma_assemble_prefix(p, n);
        assert(spec_assemble(frames.take(n)) == p.data);
        assert(spec_builder_build(bn)->Ok_0 =~= p);
    }
}

} // verus!
