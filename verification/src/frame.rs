//! The atomic transport unit and its CAN wire encoding.
//!
//! A [`Frame`] carries at most eight payload bytes together with framing
//! bits.  On a CAN bus it travels as a 29-bit extended identifier plus the
//! payload; [`CanFrame`] holds exactly the pieces of such a controller
//! frame that the codec reads, as plain values.
//!
//! Extended identifier layout, most significant bit first:
//!
//! ```text
//! bit 28      NOT_ERROR_FLAG
//! bit 27      START_FRAME_FLAG
//! bit 26      MULTI_FRAME_FLAG
//! bits 25-20  reserved (zero on send, ignored on receive)
//! bits 19-16  high nibble (0xf00) of the frame id
//! bits 15-0   DEVICE_ADDRESS
//! ```
//!
//! When `multi_frame_flag` is set, `data[0]` carries the low byte of the
//! frame id; the nibble from bits 19-16 supplies the high four bits.

use vstd::prelude::*;

verus! {

broadcast use vstd::array::group_array_axioms;

/// Frame id for packets with more than one frame.
#[derive(Debug, PartialEq, Eq, Clone, Copy)]
pub enum FrameId {
    /// Zero-based index of the last frame of the packet; attached to the
    /// start frame.
    LastFrameId(u16),
    /// Index of this frame inside the packet, starting at 1; attached to
    /// every non-start frame of a multi-frame packet.
    CurrentFrameId(u16),
}

impl FrameId {
    /// The 12-bit index carried by either variant.
    pub open spec fn value(self) -> u16 {
        match self {
            FrameId::LastFrameId(v) => v,
            FrameId::CurrentFrameId(v) => v,
        }
    }
}

/// Everything that can go wrong while decoding a frame from a wire.
#[derive(Debug, PartialEq, Eq, Clone, Copy)]
pub enum FrameError {
    /// Received a standard frame instead of an extended one.
    FrameIsStandard,
    /// Received a remote frame instead of a data one.
    FrameIsRemote,
    /// Part of the frame id is missing.
    FrameIdMissing,
    /// Frame has a different size than expected.
    WrongSize,
    /// COBS decoding error.
    CobsError,
}

/// The atomic transport unit.
#[derive(Debug, PartialEq, Clone, Copy)]
pub struct Frame {
    /// If this flag is low, the frame carries an error packet.
    pub not_error_flag: bool,
    /// If this flag is high, the frame is the first frame of a packet.
    pub start_frame_flag: bool,
    /// If this flag is high, the frame is only a part of a packet.
    pub multi_frame_flag: bool,
    /// Either the last or the current frame id, depending on
    /// `start_frame_flag`.
    pub frame_id: FrameId,
    /// Transmitting device's address.
    pub device_address: u16,
    /// Count of meaningful bytes in `data`.
    pub data_len: u8,
    /// Frame data.
    pub data: [u8; 8],
}

/// Mathematical model of a [`Frame`]: the same fields with the payload as
/// a sequence.
#[verifier::ext_equal]
pub ghost struct FrameModel {
    pub not_error_flag: bool,
    pub start_frame_flag: bool,
    pub multi_frame_flag: bool,
    pub frame_id: FrameId,
    pub device_address: u16,
    pub data_len: u8,
    pub data: Seq<u8>,
}

impl View for Frame {
    type V = FrameModel;

    open spec fn view(&self) -> FrameModel {
        FrameModel {
            not_error_flag: self.not_error_flag,
            start_frame_flag: self.start_frame_flag,
            multi_frame_flag: self.multi_frame_flag,
            frame_id: self.frame_id,
            device_address: self.device_address,
            data_len: self.data_len,
            data: self.data@,
        }
    }
}

/// The invariants a frame must satisfy to travel on a wire:
/// the payload length fits a frame, the frame id fits 12 bits, unused
/// payload bytes are zero, and a multi-frame frame carries the low byte
/// of its id in `data[0]` with the id variant matching the start flag.
pub open spec fn frame_valid(f: FrameModel) -> bool {
    &&& f.data.len() == 8
    &&& f.data_len <= 8
    &&& f.frame_id.value() <= 0xfff
    &&& forall|i: int| f.data_len <= i < 8 ==> f.data[i] == 0
    &&& f.multi_frame_flag ==> {
        &&& f.data_len >= 1
        &&& f.data[0] == (f.frame_id.value() & 0xff) as u8
        &&& (f.start_frame_flag <==> f.frame_id is LastFrameId)
    }
}

/// The canonical form a decoder produces: a single-frame frame always has
/// its start flag set and the frame id `LastFrameId(0)`.
pub open spec fn canonical_frame(f: FrameModel) -> FrameModel {
    if f.multi_frame_flag {
        f
    } else {
        FrameModel { start_frame_flag: true, frame_id: FrameId::LastFrameId(0), ..f }
    }
}

/// A CAN identifier: the controller delivers either an 11-bit standard id
/// or a 29-bit extended one.
#[derive(Debug, PartialEq, Eq, Clone, Copy)]
pub enum CanId {
    /// 11-bit standard identifier.
    Standard(u16),
    /// 29-bit extended identifier.
    Extended(u32),
}

/// What the codec reads from (and writes to) a CAN controller frame, as
/// plain values: the identifier, whether the frame is a remote frame, and
/// the payload with its length code.
#[derive(Debug, PartialEq, Clone, Copy)]
pub struct CanFrame {
    /// The frame's identifier.
    pub id: CanId,
    /// A remote frame carries no payload.
    pub is_remote: bool,
    /// Payload bytes; only the first `dlc` are meaningful.
    pub data: [u8; 8],
    /// Data length code, at most 8.
    pub dlc: u8,
}

/// Mathematical model of a [`CanFrame`].
#[verifier::ext_equal]
pub ghost struct CanFrameModel {
    pub id: CanId,
    pub is_remote: bool,
    pub data: Seq<u8>,
    pub dlc: u8,
}

impl View for CanFrame {
    type V = CanFrameModel;

    open spec fn view(&self) -> CanFrameModel {
        CanFrameModel { id: self.id, is_remote: self.is_remote, data: self.data@, dlc: self.dlc }
    }
}

/// 1 for a set flag, 0 for a clear one, as a 32-bit word.
pub open spec fn flag32(b: bool) -> u32 {
    if b {
        1
    } else {
        0
    }
}

/// The 29-bit extended identifier a frame encodes to.
pub open spec fn spec_can_id(f: FrameModel) -> u32 {
    (flag32(f.not_error_flag) << 28) | (flag32(f.start_frame_flag) << 27) | (flag32(
        f.multi_frame_flag,
    ) << 26) | ((((f.frame_id.value() & 0x0f00) as u32) >> 8) << 16) | ((f.device_address
        & 0xffff) as u32)
}

/// The CAN frame a frame encodes to: the extended identifier above and
/// the payload as it stands.
pub open spec fn spec_to_can_frame(f: FrameModel) -> CanFrameModel {
    CanFrameModel { id: CanId::Extended(spec_can_id(f)), is_remote: false, data: f.data, dlc: f.data_len }
}

/// The first `len` bytes of `data`, zero-filled to eight bytes.
pub open spec fn padded_data(data: Seq<u8>, len: u8) -> Seq<u8> {
    Seq::new(8, |i: int| if i < len { data[i] } else { 0 })
}

/// What decoding a CAN frame yields: standard and remote frames are
/// rejected, a multi-frame frame with an empty payload has no frame id,
/// and a single-frame frame is canonicalised.
pub open spec fn spec_from_can_frame(c: CanFrameModel) -> Result<FrameModel, FrameError> {
    match c.id {
        CanId::Standard(_) => Err(FrameError::FrameIsStandard),
        CanId::Extended(id) => if c.is_remote {
            Err(FrameError::FrameIsRemote)
        } else {
            let not_error_flag = (id >> 28) & 0x0001 != 0;
            let start_frame_flag = (id >> 27) & 0x0001 != 0;
            let multi_frame_flag = (id >> 26) & 0x0001 != 0;
            let frame_id_nibble = ((id >> 16) & 0x000f) as u16;
            let device_address = (id & 0xffff) as u16;
            let data = padded_data(c.data, c.dlc);
            if multi_frame_flag {
                if c.dlc == 0 {
                    Err(FrameError::FrameIdMissing)
                } else {
                    let frame_id_value = (frame_id_nibble << 8) | data[0] as u16;
                    Ok(
                        FrameModel {
                            not_error_flag,
                            start_frame_flag,
                            multi_frame_flag: true,
                            frame_id: if start_frame_flag {
                                FrameId::LastFrameId(frame_id_value)
                            } else {
                                FrameId::CurrentFrameId(frame_id_value)
                            },
                            device_address,
                            data_len: c.dlc,
                            data,
                        },
                    )
                }
            } else {
                Ok(
                    FrameModel {
                        not_error_flag,
                        start_frame_flag: true,
                        multi_frame_flag: false,
                        frame_id: FrameId::LastFrameId(0),
                        device_address,
                        data_len: c.dlc,
                        data,
                    },
                )
            }
        },
    }
}

/// A frame result seen at the model level.
pub open spec fn frame_result_view(r: Result<Frame, FrameError>) -> Result<FrameModel, FrameError> {
    match r {
        Ok(f) => Ok(f@),
        Err(e) => Err(e),
    }
}

impl Frame {
    /// Decodes a frame from the parts of a received CAN controller frame.
    pub fn from_can_frame(can_frame: &CanFrame) -> (r: Result<Frame, FrameError>)
        requires
            can_frame.dlc <= 8,
        ensures
            frame_result_view(r) == spec_from_can_frame(can_frame@),
    {
        let id: u32 = match can_frame.id {
            CanId::Standard(_) => {
                return Err(FrameError::FrameIsStandard);
            },
            CanId::Extended(id) => id,
        };
        if can_frame.is_remote {
            return Err(FrameError::FrameIsRemote);
        }

        let not_error_flag = (id >> 28) & 0x0001 != 0;
        let start_frame_flag = (id >> 27) & 0x0001 != 0;
        let multi_frame_flag = (id >> 26) & 0x0001 != 0;
        let frame_id_nibble = ((id >> 16) & 0x000f) as u16;
        let device_address = (id & 0xffff) as u16;

        let mut data: [u8; 8] = [0; 8];
        let mut i: usize = 0;
        while i < can_frame.dlc as usize
            invariant
                i <= can_frame.dlc as usize,
                can_frame.dlc <= 8,
                data@.len() == 8,
                forall|j: int| 0 <= j < i ==> data@[j] == can_frame.data@[j],
                forall|j: int| i <= j < 8 ==> data@[j] == 0,
            decreases can_frame.dlc as usize - i,
        {
            let b = can_frame.data[i];
            data[i] = b;
            i += 1;
        }
        proof {
            assert(data@ =~= padded_data(can_frame@.data, can_frame@.dlc));
        }

        if multi_frame_flag {
            if can_frame.dlc == 0 {
                return Err(FrameError::FrameIdMissing);
            }
            let frame_id_value = (frame_id_nibble << 8) | data[0] as u16;
            let frame_id = if start_frame_flag {
                FrameId::LastFrameId(frame_id_value)
            } else {
                FrameId::CurrentFrameId(frame_id_value)
            };
            Ok(
                Frame {
                    not_error_flag,
                    start_frame_flag,
                    multi_frame_flag,
                    frame_id,
                    device_address,
                    data_len: can_frame.dlc,
                    data,
                },
            )
        } else {
            Ok(
                Frame {
                    not_error_flag,
                    start_frame_flag: true,
                    multi_frame_flag,
                    frame_id: FrameId::LastFrameId(0),
                    device_address,
                    data_len: can_frame.dlc,
                    data,
                },
            )
        }
    }

    /// Encodes this frame into the parts of a CAN controller data frame
    /// with an extended identifier.
    pub fn to_can_frame(&self) -> (c: CanFrame)
        requires
            self@.data_len <= 8,
        ensures
            c@ == spec_to_can_frame(self@),
    {
        let ne_bit: u32 = if self.not_error_flag {
            1
        } else {
            0
        };
        let st_bit: u32 = if self.start_frame_flag {
            1
        } else {
            0
        };
        let mu_bit: u32 = if self.multi_frame_flag {
            1
        } else {
            0
        };
        let frame_id_value = match self.frame_id {
            FrameId::LastFrameId(v) => v,
            FrameId::CurrentFrameId(v) => v,
        };
        let id: u32 = (ne_bit << 28) | (st_bit << 27) | (mu_bit << 26) | ((((frame_id_value
            & 0x0f00) as u32) >> 8) << 16) | ((self.device_address & 0xffff) as u32);

        CanFrame { id: CanId::Extended(id), is_remote: false, data: self.data, dlc: self.data_len }
    }
}

/// Law: decoding an encoded frame gives the frame back in canonical form.
/// For a valid frame `f`, `from_can_frame(to_can_frame(f))` succeeds and
/// yields `canonical_frame(f)`.
pub proof fn lemma_can_round_trip(f: FrameModel)
    requires
        frame_valid(f),
    ensures
        spec_from_can_frame(spec_to_can_frame(f)) == Ok::<FrameModel, FrameError>(canonical_frame(f)),
{
    let ne = flag32(f.not_error_flag);
    let st = flag32(f.start_frame_flag);
    let mu = flag32(f.multi_frame_flag);
    let fid = f.frame_id.value();
    let addr = f.device_address;
    let id = spec_can_id(f);

    assert(id == (ne << 28) | (st << 27) | (mu << 26) | ((((fid & 0x0f00) as u32) >> 8) << 16) | ((
    addr & 0xffff) as u32));

    let nv = ((fid & 0x0f00) as u32) >> 8;
    assert(((fid & 0x0f00) as u32) >> 8 <= 0xf) by (bit_vector);
    assert(fid & 0xff <= 0xff) by (bit_vector);
    assert((((ne << 28) | (st << 27) | (mu << 26) | (nv << 16) | ((addr & 0xffff) as u32)) >> 28)
        & 0x0001 == ne) by (bit_vector)
        requires
            ne <= 1 && st <= 1 && mu <= 1 && nv <= 0xf,
    ;
    assert((((ne << 28) | (st << 27) | (mu << 26) | (nv << 16) | ((addr & 0xffff) as u32)) >> 27)
        & 0x0001 == st) by (bit_vector)
        requires
            ne <= 1 && st <= 1 && mu <= 1 && nv <= 0xf,
    ;
    assert((((ne << 28) | (st << 27) | (mu << 26) | (nv << 16) | ((addr & 0xffff) as u32)) >> 26)
        & 0x0001 == mu) by (bit_vector)
        requires
            ne <= 1 && st <= 1 && mu <= 1 && nv <= 0xf,
    ;
    assert((((ne << 28) | (st << 27) | (mu << 26) | (nv << 16) | ((addr & 0xffff) as u32)) >> 16)
        & 0x000f == nv) by (bit_vector)
        requires
            ne <= 1 && st <= 1 && mu <= 1 && nv <= 0xf,
    ;
    assert(((ne << 28) | (st << 27) | (mu << 26) | (nv << 16) | ((addr & 0xffff) as u32)) & 0xffff
        == ((addr & 0xffff) as u32)) by (bit_vector)
        requires
            ne <= 1 && st <= 1 && mu <= 1 && nv <= 0xf,
    ;
    assert((addr & 0xffff) == addr) by (bit_vector);

    let c = spec_to_can_frame(f);
    assert(padded_data(f.data, f.data_len) =~= f.data);

    if f.multi_frame_flag {
        let nibble = ((id >> 16) & 0x000f) as u16;
        assert(nibble == (((fid & 0x0f00) as u32) >> 8) as u16);
        let lo = f.data[0];
        assert(lo == (fid & 0xff) as u8);
        assert(((((fid & 0x0f00) as u32) >> 8) as u16) << 8 | ((fid & 0xff) as u8) as u16 == fid)
            by (bit_vector)
            requires
                fid <= 0xfff,
        ;
        assert(spec_from_can_frame(c) =~= Ok::<FrameModel, FrameError>(canonical_frame(f)));
    } else {
        assert(spec_from_can_frame(c) =~= Ok::<FrameModel, FrameError>(canonical_frame(f)));
    }
}


/// What the byte-stuffing of a byte string is.  The encoding is a
/// function of the bytes alone; its definition lives in the COBS
/// library, so it is only named here.
pub uninterp spec fn cobs_encoding_of(data: Seq<u8>) -> Seq<u8>;

/// What un-stuffing a byte string yields: the original bytes for a
/// well-formed encoding, nothing for a malformed one.
pub uninterp spec fn cobs_decoding_of(data: Seq<u8>) -> Option<Seq<u8>>;

/// Relies on cobs::encode (with a buffer sized by
/// cobs::max_encoding_length): byte-stuffs a nonempty `data` so that
/// the result holds no zero byte, cobs::decode restores `data` from
/// it, and the result is at most one byte longer than `data` for every
/// 254 bytes of input, plus one.  Empty input is left out: for it,
/// cobs::encode emits nothing, which cobs::decode does not accept.
#[verifier::external_body]
fn cobs_encode(data: &[u8]) -> (r: Vec<u8>)
    requires
        data@.len() >= 1,
    ensures
        r@ == cobs_encoding_of(data@),
        cobs_decoding_of(r@) == Some(data@),
        r@.len() <= data@.len() + data@.len() / 254 + 1,
        forall|i: int| 0 <= i < r@.len() ==> r@[i] != 0u8,
{
    let mut encoded = vec![0u8; cobs::max_encoding_length(data.len())];
    let encoded_len = cobs::encode(data, &mut encoded);
    encoded.truncate(encoded_len);
    encoded
}

/// Relies on cobs::decode: un-stuffs one COBS-encoded record, and
/// fails on a malformed one.
#[verifier::external_body]
fn cobs_decode(encoded: &[u8]) -> (r: Option<Vec<u8>>)
    ensures
        match r {
            Some(v) => cobs_decoding_of(encoded@) == Some(v@),
            None => cobs_decoding_of(encoded@) is None,
        },
{
    let mut decoded = vec![0u8; encoded.len()];
    match cobs::decode(encoded, &mut decoded) {
        Ok(n) => {
            decoded.truncate(n);
            Some(decoded)
        },
        Err(_) => None,
    }
}

/// 1 for a set flag, 0 for a clear one, as a byte.
pub open spec fn flag8(b: bool) -> u8 {
    if b {
        1
    } else {
        0
    }
}

/// The inner record of the byte-stream encoding: flag bits and the
/// frame-id nibble, the id's low byte, the device address, the payload
/// length, then the payload.
///
/// ```text
/// byte 0:  bit 7 NOT_ERROR_FLAG, bit 6 START_FRAME_FLAG,
///          bit 5 MULTI_FRAME_FLAG, bit 4 reserved,
///          bits 3-0 high nibble of the frame id
/// byte 1:  low byte of the frame id
/// byte 2:  device address, high byte
/// byte 3:  device address, low byte
/// byte 4:  payload length
/// bytes 5 and on: payload
/// ```
pub open spec fn spec_frame_record(f: FrameModel) -> Seq<u8> {
    seq![
        (flag8(f.not_error_flag) << 7) | (flag8(f.start_frame_flag) << 6) | (flag8(
            f.multi_frame_flag,
        ) << 5) | (((f.frame_id.value() & 0x0f00) >> 8) as u8),
        (f.frame_id.value() & 0x00ff) as u8,
        ((f.device_address & 0xff00) >> 8) as u8,
        (f.device_address & 0x00ff) as u8,
        f.data_len,
    ] + f.data.take(f.data_len as int)
}

/// What parsing an un-stuffed record yields: the stated length must
/// match the record and fit a frame, and a single-frame frame is
/// canonicalised.
pub open spec fn spec_parse_record(rec: Seq<u8>) -> Result<FrameModel, FrameError> {
    if rec.len() < 5 || rec.len() != rec[4] + 5 || rec[4] > 8 {
        Err(FrameError::WrongSize)
    } else {
        let not_error_flag = (rec[0] >> 7) & 0x01 != 0;
        let start_frame_flag = (rec[0] >> 6) & 0x01 != 0;
        let multi_frame_flag = (rec[0] >> 5) & 0x01 != 0;
        let frame_id_value = (((rec[0] & 0x0f) as u16) << 8) | (rec[1] as u16);
        let device_address = ((rec[2] as u16) << 8) | (rec[3] as u16);
        let data = padded_data(rec.skip(5), rec[4]);
        if multi_frame_flag {
            Ok(
                FrameModel {
                    not_error_flag,
                    start_frame_flag,
                    multi_frame_flag,
                    frame_id: if start_frame_flag {
                        FrameId::LastFrameId(frame_id_value)
                    } else {
                        FrameId::CurrentFrameId(frame_id_value)
                    },
                    device_address,
                    data_len: rec[4],
                    data,
                },
            )
        } else {
            Ok(
                FrameModel {
                    not_error_flag,
                    start_frame_flag: true,
                    multi_frame_flag: false,
                    frame_id: FrameId::LastFrameId(0),
                    device_address,
                    data_len: rec[4],
                    data,
                },
            )
        }
    }
}

/// What decoding a byte-stream frame yields: a record that does not
/// un-stuff is a `CobsError`; an un-stuffed record is parsed.
pub open spec fn spec_from_usart_frame(encoded: Seq<u8>) -> Result<FrameModel, FrameError> {
    match cobs_decoding_of(encoded) {
        None => Err(FrameError::CobsError),
        Some(rec) => spec_parse_record(rec),
    }
}

impl Frame {
    /// Decodes a frame from one COBS-encoded byte-stream record.
    pub fn from_usart_frame(encoded: Vec<u8>) -> (r: Result<Frame, FrameError>)
        ensures
            frame_result_view(r) == spec_from_usart_frame(encoded@),
    {
        let rec = match cobs_decode(encoded.as_slice()) {
            Some(rec) => rec,
            None => {
                return Err(FrameError::CobsError);
            },
        };

        if rec.len() < 5 || rec.len() != rec[4] as usize + 5 || rec[4] > 8 {
            return Err(FrameError::WrongSize);
        }

        let not_error_flag = (rec[0] >> 7) & 0x01 != 0;
        let start_frame_flag = (rec[0] >> 6) & 0x01 != 0;
        let multi_frame_flag = (rec[0] >> 5) & 0x01 != 0;
        let frame_id_value = (((rec[0] & 0x0f) as u16) << 8) | (rec[1] as u16);
        let device_address = ((rec[2] as u16) << 8) | (rec[3] as u16);
        let data_len = rec[4];

        let mut data: [u8; 8] = [0; 8];
        let mut i: usize = 0;
        while i < data_len as usize
            invariant
                i <= data_len as usize,
                data_len <= 8,
                rec@.len() == data_len + 5,
                forall|j: int| 0 <= j < i ==> data@[j] == rec@[j + 5],
                forall|j: int| i <= j < 8 ==> data@[j] == 0,
            decreases data_len as usize - i,
        {
            data[i] = rec[i + 5];
            i += 1;
        }
        proof {
            assert(data@ =~= padded_data(rec@.skip(5), data_len));
        }

        let frame = if multi_frame_flag {
            Frame {
                not_error_flag,
                start_frame_flag,
                multi_frame_flag,
                frame_id: if start_frame_flag {
                    FrameId::LastFrameId(frame_id_value)
                } else {
                    FrameId::CurrentFrameId(frame_id_value)
                },
                device_address,
                data_len,
                data,
            }
        } else {
            Frame {
                not_error_flag,
                start_frame_flag: true,
                multi_frame_flag: false,
                frame_id: FrameId::LastFrameId(0),
                device_address,
                data_len,
                data,
            }
        };
        proof {
            assert(frame@ =~= spec_parse_record(rec@)->Ok_0);
        }
        Ok(frame)
    }

    /// Encodes this frame as one COBS-encoded byte-stream record.  The
    /// result un-stuffs back to the frame's inner record and holds no
    /// zero byte, so the stream's `0x00` delimiter can never occur
    /// inside it.
    pub fn to_usart_frame(&self) -> (r: Vec<u8>)
        requires
            self@.data_len <= 8,
        ensures
            r@ == cobs_encoding_of(spec_frame_record(self@)),
            cobs_decoding_of(r@) == Some(spec_frame_record(self@)),
            r@.len() <= 14,
            forall|i: int| 0 <= i < r@.len() ==> r@[i] != 0u8,
    {
        let mut rec: Vec<u8> = Vec::new();

        let frame_id_value = match self.frame_id {
            FrameId::LastFrameId(v) => v,
            FrameId::CurrentFrameId(v) => v,
        };

        let ne_bit: u8 = if self.not_error_flag {
            1
        } else {
            0
        };
        let st_bit: u8 = if self.start_frame_flag {
            1
        } else {
            0
        };
        let mu_bit: u8 = if self.multi_frame_flag {
            1
        } else {
            0
        };

        proof {
            assert((frame_id_value & 0x0f00) >> 8 <= 0xff) by (bit_vector);
            assert(frame_id_value & 0x00ff <= 0xff) by (bit_vector);
            assert(forall|a: u16| (a & 0xff00) >> 8 <= 0xff) by (bit_vector);
            assert(forall|a: u16| a & 0x00ff <= 0xff) by (bit_vector);
        }

        rec.push(
            (ne_bit << 7) | (st_bit << 6) | (mu_bit << 5) | (((frame_id_value & 0x0f00)
                >> 8) as u8),
        );
        rec.push((frame_id_value & 0x00ff) as u8);
        rec.push(((self.device_address & 0xff00) >> 8) as u8);
        rec.push((self.device_address & 0x00ff) as u8);
        rec.push(self.data_len);

        let mut i: usize = 0;
        while i < self.data_len as usize
            invariant
                self@.data_len <= 8,
                i <= self.data_len as usize,
                rec@ =~= spec_frame_record(self@).take(5 + i as int),
            decreases self.data_len as usize - i,
        {
            rec.push(self.data[i]);
            i += 1;
        }
        proof {
            assert(rec@ =~= spec_frame_record(self@));
        }

        cobs_encode(rec.as_slice())
    }
}


/// The on-wire form of one byte-stream record: a zero delimiter, then
/// the record's length, then the record itself.  The delimiter lets a
/// receiver skip garbage and resynchronise on the next frame.
pub fn delimited_wire_frame(encoded: &Vec<u8>) -> (r: Vec<u8>)
    requires
        encoded@.len() <= 255,
    ensures
        r@ == seq![0u8, encoded@.len() as u8] + encoded@,
{
    let mut wire: Vec<u8> = Vec::new();
    wire.push(0x00);
    wire.push(encoded.len() as u8);

    let mut i: usize = 0;
    while i < encoded.len()
        invariant
            i <= encoded@.len() <= 255,
            wire@ =~= (seq![0u8, encoded@.len() as u8] + encoded@).take(2 + i as int),
        decreases encoded.len() - i,
    {
        wire.push(encoded[i]);
        i += 1;
    }
    proof {
        assert(wire@ =~= seq![0u8, encoded@.len() as u8] + encoded@);
    }
    wire
}


/// The receiver's position inside the byte-stream framing, at the
/// model level.
#[verifier::ext_equal]
pub ghost enum WireScannerModel {
    /// Skipping bytes until the next `0x00` delimiter.
    Seeking,
    /// The delimiter was seen; the next byte is the record's length.
    AwaitingLength,
    /// Collecting the record's bytes.
    Collecting { expected: u8, bytes: Seq<u8> },
}

enum WireScannerState {
    Seeking,
    AwaitingLength,
    Collecting { expected: u8, bytes: Vec<u8> },
}

/// What one received byte does to the scanner: a `0x00` while seeking
/// opens a frame, the next byte fixes the record's length, and the
/// record is emitted once that many bytes arrived.  Bytes before a
/// delimiter are skipped, which is how the receiver resynchronises.
pub open spec fn spec_scan_byte(m: WireScannerModel, byte: u8) -> (
    WireScannerModel,
    Option<Seq<u8>>,
) {
    match m {
        WireScannerModel::Seeking => if byte == 0 {
            (WireScannerModel::AwaitingLength, None)
        } else {
            (WireScannerModel::Seeking, None)
        },
        WireScannerModel::AwaitingLength => if byte == 0 {
            (WireScannerModel::Seeking, Some(Seq::empty()))
        } else {
            (WireScannerModel::Collecting { expected: byte, bytes: Seq::empty() }, None)
        },
        WireScannerModel::Collecting { expected, bytes } => {
            let grown = bytes.push(byte);
            if grown.len() == expected {
                (WireScannerModel::Seeking, Some(grown))
            } else {
                (WireScannerModel::Collecting { expected, bytes: grown }, None)
            }
        },
    }
}

/// Splits a received byte stream back into COBS-encoded records: the
/// receive-side counterpart of [`delimited_wire_frame`].  A transport
/// feeds every received byte and gets each completed record back.
pub struct WireFrameScanner {
    state: WireScannerState,
}

impl View for WireFrameScanner {
    type V = WireScannerModel;

    closed spec fn view(&self) -> WireScannerModel {
        match self.state {
            WireScannerState::Seeking => WireScannerModel::Seeking,
            WireScannerState::AwaitingLength => WireScannerModel::AwaitingLength,
            WireScannerState::Collecting { expected, bytes } => WireScannerModel::Collecting {
                expected,
                bytes: bytes@,
            },
        }
    }
}

impl WireFrameScanner {
    /// A scanner that waits for the next delimiter.
    pub fn new() -> (r: Self)
        ensures
            r@ == WireScannerModel::Seeking,
    {
        WireFrameScanner { state: WireScannerState::Seeking }
    }

    /// Whether a frame is open: a delimiter was seen and the record is
    /// not complete yet.
    pub fn in_frame(&self) -> (r: bool)
        ensures
            r == !(self@ is Seeking),
    {
        match self.state {
            WireScannerState::Seeking => false,
            _ => true,
        }
    }

    /// Absorbs one received byte; returns the COBS-encoded record the
    /// byte completed, if any.
    pub fn feed_byte(&mut self, byte: u8) -> (r: Option<Vec<u8>>)
        ensures
            ({
                let (next, out) = spec_scan_byte(old(self)@, byte);
                &&& final (self)@ == next
                &&& (match (r, out) {
                    (Some(v), Some(s)) => v@ == s,
                    (None, None) => true,
                    _ => false,
                })
            }),
    {
        let mut state = WireScannerState::Seeking;
        core::mem::swap(&mut state, &mut self.state);
        match state {
            WireScannerState::Seeking => {
                if byte == 0 {
                    self.state = WireScannerState::AwaitingLength;
                }
                None
            },
            WireScannerState::AwaitingLength => {
                if byte == 0 {
                    Some(Vec::new())
                } else {
                    self.state = WireScannerState::Collecting { expected: byte, bytes: Vec::new() };
                    None
                }
            },
            WireScannerState::Collecting { expected, mut bytes } => {
                bytes.push(byte);
                if bytes.len() == expected as usize {
                    Some(bytes)
                } else {
                    self.state = WireScannerState::Collecting { expected, bytes };
                    None
                }
            },
        }
    }
}

/// Parsing the inner record of a valid frame gives the frame back in
/// canonical form.
pub proof fn lemma_record_round_trip(f: FrameModel)
    requires
        frame_valid(f),
    ensures
        spec_parse_record(spec_frame_record(f)) == Ok::<FrameModel, FrameError>(canonical_frame(f)),
{
    let rec = spec_frame_record(f);
    let ne = flag8(f.not_error_flag);
    let st = flag8(f.start_frame_flag);
    let mu = flag8(f.multi_frame_flag);
    let fid = f.frame_id.value();
    let addr = f.device_address;
    let b0 = (ne << 7) | (st << 6) | (mu << 5) | (((fid & 0x0f00) >> 8) as u8);

    assert(rec.len() == 5 + f.data_len);
    assert(rec[4] == f.data_len);

    let nv = ((fid & 0x0f00) >> 8) as u8;
    assert((fid & 0x0f00) >> 8 <= 0xf) by (bit_vector);
    assert((((ne << 7) | (st << 6) | (mu << 5) | nv) >> 7) & 0x01 == ne) by (bit_vector)
        requires
            ne <= 1 && st <= 1 && mu <= 1 && nv <= 0xf,
    ;
    assert((((ne << 7) | (st << 6) | (mu << 5) | nv) >> 6) & 0x01 == st) by (bit_vector)
        requires
            ne <= 1 && st <= 1 && mu <= 1 && nv <= 0xf,
    ;
    assert((((ne << 7) | (st << 6) | (mu << 5) | nv) >> 5) & 0x01 == mu) by (bit_vector)
        requires
            ne <= 1 && st <= 1 && mu <= 1 && nv <= 0xf,
    ;
    assert(((ne << 7) | (st << 6) | (mu << 5) | nv) & 0x0f == nv) by (bit_vector)
        requires
            ne <= 1 && st <= 1 && mu <= 1 && nv <= 0xf,
    ;
    assert(((((fid & 0x0f00) >> 8) as u8) as u16) << 8 | (((fid & 0x00ff) as u8) as u16) == fid)
        by (bit_vector)
        requires
            fid <= 0xfff,
    ;
    assert(((((addr & 0xff00) >> 8) as u8) as u16) << 8 | (((addr & 0x00ff) as u8) as u16) == addr)
        by (bit_vector);

    assert(rec.skip(5) =~= f.data.take(f.data_len as int));
    assert(padded_data(rec.skip(5), f.data_len) =~= f.data);

    if f.multi_frame_flag {
        assert(spec_parse_record(rec) =~= Ok::<FrameModel, FrameError>(canonical_frame(f)));
    } else {
        assert(spec_parse_record(rec) =~= Ok::<FrameModel, FrameError>(canonical_frame(f)));
    }
}

/// Law: decoding an encoded frame from the byte stream gives the frame
/// back in canonical form.  `encoded` is what `to_usart_frame` returns
/// for a valid frame `f`: by the encoder's contract it un-stuffs to the
/// frame's inner record, and decoding it then yields
/// `canonical_frame(f)`.
pub proof fn lemma_usart_round_trip(f: FrameModel, encoded: Seq<u8>)
    requires
        frame_valid(f),
        cobs_decoding_of(encoded) == Some(spec_frame_record(f)),
    ensures
        spec_from_usart_frame(encoded) == Ok::<FrameModel, FrameError>(canonical_frame(f)),
{
    lemma_record_round_trip(f);
}

} // verus!

