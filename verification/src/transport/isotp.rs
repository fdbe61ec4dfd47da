//! ISO-TP (ISO 15765-2) framing over CAN.
//!
//! Messages of up to seven bytes travel in a single frame; longer ones in a first frame
//! followed by consecutive frames of seven bytes, the receiver answering the first frame
//! with a flow-control frame. Frames are padded with `0x55` to eight bytes.

use vstd::prelude::*;
use crate::error::{Error, is_invalid_frame_error, is_transport_error};
use crate::text::{dec_chars, push_decimal};
use crate::types::{CanFrame, CanId};

verus! {

/// The default response timeout, in milliseconds.
pub const DEFAULT_TIMEOUT_MS: u64 = 1000;

/// The padding byte of short frames.
pub const PADDING: u8 = 0x55;

/// `s` padded with `0x55` up to eight bytes (longer sequences are kept as they are).
pub open spec fn pad8(s: Seq<u8>) -> Seq<u8> {
    if s.len() < 8 {
        s + Seq::new((8 - s.len()) as nat, |i: int| 0x55u8)
    } else {
        s
    }
}

/// The bytes of a single frame carrying `data` (at most seven bytes).
pub open spec fn sf_bytes(data: Seq<u8>) -> Seq<u8> {
    pad8(seq![data.len() as u8] + data)
}

/// The 16-bit length field that a first frame derives from a message length.
pub open spec fn ff_length(len: nat) -> u16 {
    len as u16
}

/// The bytes of the first frame of `data`: the 12-bit length and the first six bytes.
pub open spec fn ff_bytes(data: Seq<u8>) -> Seq<u8> {
    let l = ff_length(data.len());
    seq![0x10u8 | (((l >> 8u16) & 0x0Fu16) as u8), (l & 0xFFu16) as u8] + data.take(6)
}

/// The bytes of a consecutive frame with the given sequence number and chunk.
pub open spec fn cf_bytes(sequence: u8, chunk: Seq<u8>) -> Seq<u8> {
    pad8(seq![0x20u8 | (sequence & 0x0Fu8)] + chunk)
}

/// The bytes of the flow-control frame: continue to send, no block limit, no separation time.
pub open spec fn fc_bytes() -> Seq<u8> {
    seq![0x30u8, 0x00u8, 0x00u8, 0x55u8, 0x55u8, 0x55u8, 0x55u8, 0x55u8]
}

/// The consecutive frames carrying `data` from `offset` on, numbered from `index` (the
/// sequence number of frame `index` being `index % 16`).
pub open spec fn cf_frames(data: Seq<u8>, offset: nat, index: nat) -> Seq<Seq<u8>>
    decreases data.len() - offset,
{
    if offset >= data.len() {
        Seq::empty()
    } else if offset + 7 >= data.len() {
        seq![cf_bytes((index % 16) as u8, data.subrange(offset as int, data.len() as int))]
    } else {
        seq![cf_bytes((index % 16) as u8, data.subrange(offset as int, offset + 7 as int))] + cf_frames(
            data,
            offset + 7,
            index + 1,
        )
    }
}

/// The frame payloads that carry `data`, in sending order.
pub open spec fn segment(data: Seq<u8>) -> Seq<Seq<u8>> {
    if data.len() <= 7 {
        seq![sf_bytes(data)]
    } else {
        seq![ff_bytes(data)] + cf_frames(data, 6, 1)
    }
}

/// The ISO-TP frame type encoded in the high nibble of the first byte, if valid.
pub enum PciType {
    SingleFrame,
    FirstFrame,
    ConsecutiveFrame,
    FlowControl,
}

/// The frame type of a first byte: 0 single, 1 first, 2 consecutive, 3 flow control.
pub open spec fn spec_pci(byte: u8) -> Option<PciType> {
    let n = (byte & 0xF0u8) >> 4u8;
    if n == 0 {
        Some(PciType::SingleFrame)
    } else if n == 1 {
        Some(PciType::FirstFrame)
    } else if n == 2 {
        Some(PciType::ConsecutiveFrame)
    } else if n == 3 {
        Some(PciType::FlowControl)
    } else {
        None
    }
}

impl PciType {
    /// Decodes the frame type from the first byte of a frame.
    pub fn from_byte(byte: u8) -> (r: Option<PciType>)
        ensures
            r == spec_pci(byte),
    {
        let n = (byte & 0xF0) >> 4;
        if n == 0 {
            Some(PciType::SingleFrame)
        } else if n == 1 {
            Some(PciType::FirstFrame)
        } else if n == 2 {
            Some(PciType::ConsecutiveFrame)
        } else if n == 3 {
            Some(PciType::FlowControl)
        } else {
            None
        }
    }
}

/// A copy of `v[start..end]`.
pub fn copy_range(v: &[u8], start: usize, end: usize) -> (r: Vec<u8>)
    requires
        start <= end <= v@.len(),
    ensures
        r@ == v@.subrange(start as int, end as int),
{
    let mut r: Vec<u8> = Vec::new();
    let mut i = start;
    while i < end
        invariant
            start <= i <= end <= v@.len(),
            r@ == v@.subrange(start as int, i as int),
        decreases end - i,
    {
        r.push(v[i]);
        i = i + 1;
        proof {
            assert(r@ =~= v@.subrange(start as int, i as int));
        }
    }
    r
}

/// Appends `0x55` bytes to `v` until it holds eight bytes.
fn pad_frame(v: &mut Vec<u8>)
    ensures
        final(v)@ == pad8(old(v)@),
{
    let ghost start = v@;
    while v.len() < 8
        invariant
            start.len() <= v@.len(),
            v@.len() <= 8 || v@ == start,
            v@ == start + Seq::new((v@.len() - start.len()) as nat, |i: int| 0x55u8),
        decreases 8 - v@.len(),
    {
        v.push(0x55);
        proof {
            assert(v@ =~= start + Seq::new((v@.len() - start.len()) as nat, |i: int| 0x55u8));
        }
    }
    proof {
        assert(v@ =~= pad8(start));
    }
}

/// ISO-TP transport state over a link-layer adapter `L`: the adapter and the response timeout.
pub struct IsoTp<L> {
    link: L,
    timeout_ms: u64,
}

impl<L> IsoTp<L> {
    /// Wraps a link-layer adapter in a new `IsoTp` transport with the default one-second timeout.
    pub fn new(link: L) -> (r: IsoTp<L>)
        ensures
            r.link() == link,
            r.timeout_ms() == DEFAULT_TIMEOUT_MS,
    {
        IsoTp { link, timeout_ms: DEFAULT_TIMEOUT_MS }
    }

    /// The wrapped adapter.
    pub closed spec fn link(&self) -> L {
        self.link
    }

    /// The response timeout in milliseconds.
    pub closed spec fn timeout_ms(&self) -> u64 {
        self.timeout_ms
    }

    /// Mutable access to the wrapped adapter.
    pub fn link_mut(&mut self) -> (r: &mut L)
        ensures
            *r == old(self).link(),
            final(self).link() == *final(r),
            final(self).timeout_ms() == old(self).timeout_ms(),
    {
        &mut self.link
    }

    /// The response timeout in milliseconds.
    pub fn timeout(&self) -> (r: u64)
        ensures
            r == self.timeout_ms(),
    {
        self.timeout_ms
    }

    /// Adjusts the response timeout for subsequent operations.
    pub fn set_timeout(&mut self, timeout_ms: u64)
        ensures
            final(self).timeout_ms() == timeout_ms,
            final(self).link() == old(self).link(),
    {
        self.timeout_ms = timeout_ms;
    }

    /// The single frame carrying `data`; fails when `data` exceeds seven bytes.
    pub fn create_single_frame(&self, request_id: CanId, data: &[u8]) -> (r: Result<
        CanFrame,
        Error,
    >)
        ensures
            data@.len() <= 7 ==> (r matches Ok(f) && f.id == request_id && f.data@ == sf_bytes(
                data@,
            )),
            data@.len() > 7 ==> (r matches Err(e) && is_transport_error(
                e,
                "Data too long for single frame"@,
            )),
    {
        if data.len() > 7 {
            return Err(Error::transport("Data too long for single frame"));
        }
        let mut frame_data = vec![data.len() as u8];
        let mut i: usize = 0;
        while i < data.len()
            invariant
                data@.len() <= 7,
                i <= data@.len(),
                frame_data@ == seq![data@.len() as u8] + data@.take(i as int),
            decreases data@.len() - i,
        {
            frame_data.push(data[i]);
            i = i + 1;
            proof {
                assert(frame_data@ =~= seq![data@.len() as u8] + data@.take(i as int));
            }
        }
        proof {
            assert(data@.take(i as int) =~= data@);
        }
        pad_frame(&mut frame_data);
        Ok(CanFrame::new(request_id, frame_data))
    }

    /// The first frame of a multi-frame message; fails when `data` is shorter than eight bytes.
    pub fn create_first_frame(&self, request_id: CanId, data: &[u8]) -> (r: Result<
        CanFrame,
        Error,
    >)
        ensures
            data@.len() >= 8 ==> (r matches Ok(f) && f.id == request_id && f.data@ == ff_bytes(
                data@,
            )),
            data@.len() < 8 ==> (r matches Err(e) && is_transport_error(
                e,
                "Use single frame for data < 8 bytes"@,
            )),
    {
        if data.len() < 8 {
            return Err(Error::transport("Use single frame for data < 8 bytes"));
        }
        let length = data.len() as u16;
        let pci = 0x10u8 | (((length >> 8u16) & 0x0Fu16) as u8);
        let length_low = (length & 0xFFu16) as u8;
        let mut frame_data = vec![pci, length_low];
        let mut i: usize = 0;
        while i < 6
            invariant
                data@.len() >= 8,
                i <= 6,
                frame_data@ == seq![pci, length_low] + data@.take(i as int),
            decreases 6 - i,
        {
            frame_data.push(data[i]);
            i = i + 1;
            proof {
                assert(frame_data@ =~= seq![pci, length_low] + data@.take(i as int));
            }
        }
        Ok(CanFrame::new(request_id, frame_data))
    }

    /// A consecutive frame with the given sequence number (low nibble) and chunk.
    pub fn create_consecutive_frame(&self, request_id: CanId, sequence: u8, data: &[u8]) -> (r:
        Result<CanFrame, Error>)
        ensures
            r matches Ok(f) && f.id == request_id && f.data@ == cf_bytes(sequence, data@),
    {
        let pci = 0x20u8 | (sequence & 0x0Fu8);
        let mut frame_data = vec![pci];
        let mut i: usize = 0;
        while i < data.len()
            invariant
                i <= data@.len(),
                frame_data@ == seq![pci] + data@.take(i as int),
            decreases data@.len() - i,
        {
            frame_data.push(data[i]);
            i = i + 1;
            proof {
                assert(frame_data@ =~= seq![pci] + data@.take(i as int));
            }
        }
        proof {
            assert(data@.take(i as int) =~= data@);
        }
        pad_frame(&mut frame_data);
        Ok(CanFrame::new(request_id, frame_data))
    }

    /// The flow-control frame (continue to send, block size 0, STmin 0) addressed to `request_id`.
    pub fn create_flow_control_frame(&self, request_id: CanId) -> (r: CanFrame)
        ensures
            r.id == request_id,
            r.data@ == fc_bytes(),
    {
        let v = vec![0x30u8, 0x00u8, 0x00u8, 0x55u8, 0x55u8, 0x55u8, 0x55u8, 0x55u8];
        proof {
            assert(v@ =~= fc_bytes());
        }
        CanFrame::new(request_id, v)
    }

    /// The frames that send `data` to `request_id`, in order: a single frame for messages of
    /// up to seven bytes, else a first frame and consecutive frames.
    pub fn frames_for(&self, request_id: CanId, data: &[u8]) -> (r: Vec<CanFrame>)
        ensures
            r@.len() == segment(data@).len(),
            forall|i: int|
                0 <= i < r@.len() ==> (#[trigger] r@[i]).id == request_id && r@[i].data@
                    == segment(data@)[i],
    {
        let mut frames: Vec<CanFrame> = Vec::new();
        if data.len() <= 7 {
            let f = match self.create_single_frame(request_id, data) {
                Ok(f) => f,
                Err(_) => {
                    return frames;
                },
            };
            frames.push(f);
            return frames;
        }
        let first = match self.create_first_frame(request_id, data) {
            Ok(f) => f,
            Err(_) => {
                return frames;
            },
        };
        frames.push(first);
        let mut offset: usize = 6;
        let mut sequence: u8 = 1;
        let ghost mut index: nat = 1;
        proof {
            assert(segment(data@) =~= seq![ff_bytes(data@)] + cf_frames(data@, 6, 1));
        }
        while offset < data.len()
            invariant
                data@.len() > 7,
                6 <= offset,
                sequence == index % 16,
                frames@.len() >= 1,
                frames@.len() + cf_frames(data@, offset as nat, index).len() == segment(
                    data@,
                ).len(),
                segment(data@) == frames@.map_values(|f: CanFrame| f.data@) + cf_frames(
                    data@,
                    offset as nat,
                    index,
                ),
                forall|i: int| 0 <= i < frames@.len() ==> (#[trigger] frames@[i]).id == request_id,
            decreases data@.len() - offset,
        {
            let remaining = data.len() - offset;
            let chunk_size = if remaining < 7 {
                remaining
            } else {
                7
            };
            let chunk = copy_range(data, offset, offset + chunk_size);
            let f = match self.create_consecutive_frame(request_id, sequence, chunk.as_slice()) {
                Ok(f) => f,
                Err(_) => {
                    return frames;
                },
            };
            proof {
                assert(cf_frames(data@, (offset + chunk_size) as nat, index + 1) =~= if offset
                    + chunk_size >= data@.len() {
                    Seq::<Seq<u8>>::empty()
                } else {
                    cf_frames(data@, (offset + 7) as nat, index + 1)
                });
                assert(cf_frames(data@, offset as nat, index) =~= seq![
                    cf_bytes((index % 16) as u8, chunk@),
                ] + cf_frames(data@, (offset + chunk_size) as nat, index + 1));
            }
            let ghost before = frames@;
            frames.push(f);
            proof {
                assert(frames@.map_values(|f: CanFrame| f.data@) =~= before.map_values(
                    |f: CanFrame| f.data@,
                ).push(f.data@));
                assert(segment(data@) =~= frames@.map_values(|f: CanFrame| f.data@) + cf_frames(
                    data@,
                    (offset + chunk_size) as nat,
                    index + 1,
                ));
            }
            offset = offset + chunk_size;
            sequence = ((sequence as u16 + 1) % 16) as u8;
            proof {
                index = index + 1;
            }
        }
        proof {
            assert(cf_frames(data@, offset as nat, index) =~= Seq::<Seq<u8>>::empty());
            assert forall|i: int| 0 <= i < frames@.len() implies frames@[i].data@ == segment(
                data@,
            )[i] by {
                assert(segment(data@)[i] == frames@.map_values(|f: CanFrame| f.data@)[i]);
            }
        }
        frames
    }
}

/// Why an incoming message was rejected.
pub enum RxFault {
    /// The first frame carried no bytes.
    EmptyFrame,
    /// The frame-type nibble is not one of the four ISO-TP types.
    InvalidPci,
    /// A single frame announced more bytes than it carries.
    InvalidSingleLength,
    /// The message started with a consecutive or flow-control frame.
    UnexpectedType,
    /// A consecutive frame arrived out of sequence.
    SequenceMismatch { expected: u8, got: u8 },
    /// A frame other than a consecutive frame arrived in the middle of a message.
    ExpectedConsecutive,
}

/// The abstract state of a message reception.
pub enum RxModel {
    /// Waiting for the first frame of the message.
    Idle,
    /// A first frame announced `length` bytes; `data` holds those received so far.
    Collecting { length: nat, data: Seq<u8>, expected: u8 },
    /// The message was completed or rejected.
    Finished,
}

/// What one incoming frame does to a reception.
pub enum RxResult {
    /// The frame belongs to another sender, or the reception is over.
    Ignored,
    /// More frames are needed.
    Waiting,
    /// The message is complete.
    Complete(Seq<u8>),
    /// The message is rejected.
    Failed(RxFault),
}

/// The smaller of two numbers.
pub open spec fn min_nat(a: nat, b: nat) -> nat {
    if a < b {
        a
    } else {
        b
    }
}

/// The length announced by a first frame whose first two bytes are `b0`, `b1`.
pub open spec fn ff_announced(b0: u8, b1: u8) -> u16 {
    (((b0 & 0x0Fu8) as u16) << 8u16) | (b1 as u16)
}

/// The step a reception takes on a frame with identifier `fid` and bytes `frame`:
/// the next state, whether a flow-control frame is sent, and the result.
pub open spec fn rx_step(m: RxModel, rid: u32, fid: u32, frame: Seq<u8>) -> (RxModel, bool, RxResult) {
    if fid != rid || m is Finished {
        (m, false, RxResult::Ignored)
    } else {
        match m {
            RxModel::Idle => {
                if frame.len() == 0 {
                    (RxModel::Finished, false, RxResult::Failed(RxFault::EmptyFrame))
                } else {
                    match spec_pci(frame[0]) {
                        None => (RxModel::Finished, false, RxResult::Failed(RxFault::InvalidPci)),
                        Some(PciType::SingleFrame) => {
                            let l = (frame[0] & 0x0Fu8) as nat;
                            if l > frame.len() - 1 {
                                (
                                    RxModel::Finished,
                                    false,
                                    RxResult::Failed(RxFault::InvalidSingleLength),
                                )
                            } else {
                                (
                                    RxModel::Finished,
                                    false,
                                    RxResult::Complete(frame.subrange(1, l + 1 as int)),
                                )
                            }
                        },
                        Some(PciType::FirstFrame) => {
                            let l = ff_announced(frame[0], frame[1]) as nat;
                            let d = frame.subrange(2, frame.len() as int);
                            if d.len() >= l {
                                (RxModel::Finished, true, RxResult::Complete(d.take(l as int)))
                            } else {
                                (
                                    RxModel::Collecting { length: l, data: d, expected: 1 },
                                    true,
                                    RxResult::Waiting,
                                )
                            }
                        },
                        _ => (RxModel::Finished, false, RxResult::Failed(RxFault::UnexpectedType)),
                    }
                }
            },
            RxModel::Collecting { length, data, expected } => {
                match spec_pci(frame[0]) {
                    None => (RxModel::Finished, false, RxResult::Failed(RxFault::InvalidPci)),
                    Some(PciType::ConsecutiveFrame) => {
                        let s = frame[0] & 0x0Fu8;
                        if s != expected {
                            (
                                RxModel::Finished,
                                false,
                                RxResult::Failed(RxFault::SequenceMismatch { expected, got: s }),
                            )
                        } else {
                            let chunk = min_nat((length - data.len()) as nat, 7);
                            let d2 = data + frame.subrange(1, 1 + chunk as int);
                            if d2.len() >= length {
                                (RxModel::Finished, false, RxResult::Complete(d2))
                            } else {
                                (
                                    RxModel::Collecting {
                                        length,
                                        data: d2,
                                        expected: ((expected + 1) % 16) as u8,
                                    },
                                    false,
                                    RxResult::Waiting,
                                )
                            }
                        }
                    },
                    _ => (RxModel::Finished, false, RxResult::Failed(RxFault::ExpectedConsecutive)),
                }
            },
            RxModel::Finished => (m, false, RxResult::Ignored),
        }
    }
}

/// The frames on which a reception is defined: a first frame holds its two length bytes; a
/// frame in the middle of a message is not empty, and an in-sequence consecutive frame holds
/// the bytes it must contribute.
pub open spec fn rx_accepts(m: RxModel, rid: u32, fid: u32, frame: Seq<u8>) -> bool {
    fid != rid || match m {
        RxModel::Idle => (frame.len() > 0 && (spec_pci(frame[0]) matches Some(
            PciType::FirstFrame,
        ))) ==> frame.len() >= 2,
        RxModel::Collecting { length, data, expected } => {
            &&& frame.len() > 0
            &&& ((spec_pci(frame[0]) matches Some(PciType::ConsecutiveFrame)) && (frame[0] & 0x0Fu8)
                == expected) ==> frame.len() >= 1 + min_nat((length - data.len()) as nat, 7)
        },
        RxModel::Finished => true,
    }
}

/// A reception state is consistent: a message in progress is shorter than announced, its
/// announced length fits twelve bits, and the expected sequence number is a nibble.
pub open spec fn rx_model_wf(m: RxModel) -> bool {
    match m {
        RxModel::Collecting { length, data, expected } => data.len() < length && length <= 0xFFF
            && expected < 16,
        _ => true,
    }
}

/// The result of feeding frames (all from `id`) to a reception: the final state and the
/// result of the last frame.
pub open spec fn rx_run(m: RxModel, id: u32, frames: Seq<Seq<u8>>) -> (RxModel, RxResult)
    decreases frames.len(),
{
    if frames.len() == 0 {
        (m, RxResult::Waiting)
    } else {
        let (m1, _, r1) = rx_step(m, id, id, frames[0]);
        if frames.len() == 1 {
            (m1, r1)
        } else {
            rx_run(m1, id, frames.drop_first())
        }
    }
}

/// Every frame is one the reception is defined on, and every frame before the last one
/// leaves the reception waiting.
pub open spec fn rx_smooth(m: RxModel, id: u32, frames: Seq<Seq<u8>>) -> bool
    decreases frames.len(),
{
    frames.len() == 0 || {
        let (m1, _, r1) = rx_step(m, id, id, frames[0]);
        &&& rx_accepts(m, id, id, frames[0])
        &&& (frames.len() > 1 ==> r1 is Waiting)
        &&& rx_smooth(m1, id, frames.drop_first())
    }
}

/// The number of flow-control frames a reception sends while receiving `frames`.
pub open spec fn rx_flow_controls(m: RxModel, id: u32, frames: Seq<Seq<u8>>) -> nat
    decreases frames.len(),
{
    if frames.len() == 0 {
        0
    } else {
        let (m1, fc, _) = rx_step(m, id, id, frames[0]);
        (if fc {
            1nat
        } else {
            0nat
        }) + rx_flow_controls(m1, id, frames.drop_first())
    }
}

/// Bit facts about the first byte of a consecutive frame.
pub proof fn lemma_cf_header(s: u8)
    requires
        s < 16,
    ensures
        spec_pci(0x20u8 | (s & 0x0Fu8)) matches Some(PciType::ConsecutiveFrame),
        (0x20u8 | (s & 0x0Fu8)) & 0x0Fu8 == s,
{
    assert(((0x20u8 | (s & 0x0Fu8)) & 0xF0u8) >> 4u8 == 2u8) by (bit_vector);
    assert((0x20u8 | (s & 0x0Fu8)) & 0x0Fu8 == s) by (bit_vector)
        requires
            s < 16,
    ;
}

/// Bit facts about the first two bytes of a first frame.
pub proof fn lemma_ff_header(l: u16)
    requires
        l < 4096,
    ensures
        spec_pci(0x10u8 | (((l >> 8u16) & 0x0Fu16) as u8)) matches Some(PciType::FirstFrame),
        ff_announced(0x10u8 | (((l >> 8u16) & 0x0Fu16) as u8), (l & 0xFFu16) as u8) == l,
{
    assert(((0x10u8 | (((l >> 8u16) & 0x0Fu16) as u8)) & 0xF0u8) >> 4u8 == 1u8) by (bit_vector);
    assert((((((0x10u8 | (((l >> 8u16) & 0x0Fu16) as u8)) & 0x0Fu8) as u16) << 8u16) | (((l
        & 0xFFu16) as u8) as u16)) == l) by (bit_vector)
        requires
            l < 4096,
    ;
}

/// Bit facts about the first byte of a single frame.
pub proof fn lemma_sf_header(n: u8)
    requires
        n <= 7,
    ensures
        spec_pci(n) matches Some(PciType::SingleFrame),
        n & 0x0Fu8 == n,
{
    assert((n & 0xF0u8) >> 4u8 == 0u8) by (bit_vector)
        requires
            n <= 7,
    ;
    assert(n & 0x0Fu8 == n) by (bit_vector)
        requires
            n <= 7,
    ;
}

/// Receiving the consecutive frames of `data` from offset `k` on, in the state reached
/// after the bytes before `k`, completes the message without hiccup.
pub proof fn lemma_receive_consecutive(data: Seq<u8>, id: u32, k: nat, j: nat)
    requires
        data.len() <= 4095,
        k < data.len(),
    ensures
        ({
            let m = RxModel::Collecting { length: data.len(), data: data.take(k as int), expected: (j % 16) as u8 };
            let fs = cf_frames(data, k, j);
            &&& rx_run(m, id, fs) == (RxModel::Finished, RxResult::Complete(data))
            &&& rx_smooth(m, id, fs)
            &&& rx_flow_controls(m, id, fs) == 0
        }),
    decreases data.len() - k,
{
    let m = RxModel::Collecting { length: data.len(), data: data.take(k as int), expected: (j % 16) as u8 };
    let fs = cf_frames(data, k, j);
    let s = (j % 16) as u8;
    let end: nat = if k + 7 >= data.len() { data.len() } else { k + 7 };
    let chunk = data.subrange(k as int, end as int);
    let frame = cf_bytes(s, chunk);
    lemma_cf_header(s);
    assert(fs[0] == frame);
    assert(frame[0] == 0x20u8 | (s & 0x0Fu8));
    assert(frame.len() == 8);
    let c = min_nat((data.len() - k) as nat, 7);
    assert(c == end - k);
    assert(frame.subrange(1, 1 + c as int) =~= chunk);
    assert(data.take(k as int) + chunk =~= data.take(end as int));
    let (m1, fc, r1) = rx_step(m, id, id, frame);
    if end == data.len() {
        assert(data.take(end as int) =~= data);
        assert(fs.len() == 1);
        assert(r1 == RxResult::Complete(data));
        assert(fs.drop_first() =~= Seq::<Seq<u8>>::empty());
        assert(rx_accepts(m, id, id, frame));
        assert(rx_smooth(m1, id, fs.drop_first()));
        assert(rx_flow_controls(m1, id, fs.drop_first()) == 0);
        assert(!fc);
    } else {
        assert(fs.drop_first() =~= cf_frames(data, k + 7, j + 1));
        assert(((s + 1) % 16) as u8 == ((j + 1) % 16) as u8);
        assert(m1 == RxModel::Collecting { length: data.len(), data: data.take((k + 7) as int), expected: ((j + 1) % 16) as u8 });
        lemma_receive_consecutive(data, id, k + 7, j + 1);
        assert(fs.len() > 1);
        assert(rx_accepts(m, id, id, frame));
        assert(r1 is Waiting);
        assert(!fc);
    }
}

/// A frame from any other sender than the awaited one is ignored: the reception stays as it
/// was, no flow-control frame is sent and nothing is completed or rejected, whatever the
/// frame holds; such a frame is always acceptable input. Likewise every frame is ignored
/// once the reception is over.
pub proof fn law_foreign_frames_ignored(m: RxModel, rid: u32, fid: u32, frame: Seq<u8>)
    ensures
        fid != rid ==> rx_step(m, rid, fid, frame) == (m, false, RxResult::Ignored),
        fid != rid ==> rx_accepts(m, rid, fid, frame),
        m is Finished ==> rx_step(m, rid, fid, frame) == (m, false, RxResult::Ignored),
{
}

/// Segmentation and reassembly are inverse: a receiver fed the frames that carry a message
/// of at most 4095 bytes, in order and from the expected sender, is defined on every frame,
/// waits until the last one, then completes with exactly the message; it sends one
/// flow-control frame when the message needs several frames and none otherwise.
pub proof fn law_segment_then_reassemble(data: Seq<u8>, id: u32)
    requires
        data.len() <= 4095,
    ensures
        rx_run(RxModel::Idle, id, segment(data)) == (RxModel::Finished, RxResult::Complete(data)),
        rx_smooth(RxModel::Idle, id, segment(data)),
        rx_flow_controls(RxModel::Idle, id, segment(data)) == (if data.len() > 7 {
            1nat
        } else {
            0nat
        }),
{
    let fs = segment(data);
    if data.len() <= 7 {
        let n = data.len() as u8;
        lemma_sf_header(n);
        let frame = sf_bytes(data);
        assert(fs =~= seq![frame]);
        assert(frame[0] == n);
        assert(frame.subrange(1, data.len() + 1 as int) =~= data);
        assert(fs.drop_first() =~= Seq::<Seq<u8>>::empty());
        let (m1, fc, r1) = rx_step(RxModel::Idle, id, id, frame);
        assert(rx_accepts(RxModel::Idle, id, id, frame));
        assert(rx_smooth(m1, id, fs.drop_first()));
        assert(rx_flow_controls(m1, id, fs.drop_first()) == 0);
        assert(!fc);
    } else {
        let l = ff_length(data.len());
        assert(l == data.len());
        lemma_ff_header(l);
        let frame = ff_bytes(data);
        assert(fs[0] == frame);
        assert(frame.subrange(2, frame.len() as int) =~= data.take(6));
        assert(fs.drop_first() =~= cf_frames(data, 6, 1));
        lemma_receive_consecutive(data, id, 6, 1);
        let (m1, fc, r1) = rx_step(RxModel::Idle, id, id, frame);
        assert(frame.len() == 8);
        assert(rx_accepts(RxModel::Idle, id, id, frame));
        assert(m1 == RxModel::Collecting { length: data.len(), data: data.take(6), expected: (1nat % 16) as u8 });
        assert(fc);
        assert(r1 is Waiting);
        assert(fs.len() > 1);
    }
}

/// The concrete state of a message reception.
pub enum RxState {
    /// Waiting for the first frame of the message.
    Idle,
    /// A first frame announced `length` bytes; `data` holds those received so far.
    Collecting { length: u16, data: Vec<u8>, expected_sequence: u8 },
    /// The message was completed or rejected.
    Finished,
}

/// The abstract state of a concrete reception state.
pub open spec fn state_model(s: RxState) -> RxModel {
    match s {
        RxState::Idle => RxModel::Idle,
        RxState::Collecting { length, data, expected_sequence } => RxModel::Collecting {
            length: length as nat,
            data: data@,
            expected: expected_sequence,
        },
        RxState::Finished => RxModel::Finished,
    }
}

/// What an incoming frame did to a reception.
pub enum RxOutcome {
    /// The frame belongs to another sender, or the reception is over.
    Ignored,
    /// More frames are needed.
    Waiting,
    /// The message is complete.
    Complete(Vec<u8>),
    /// The message is rejected.
    Failed(Error),
}

/// The message of the error for an out-of-sequence consecutive frame.
pub open spec fn sequence_mismatch_message(expected: u8, got: u8) -> Seq<char> {
    "Sequence mismatch: expected "@ + dec_chars(expected as nat) + ", got "@ + dec_chars(got as nat)
}

/// `e` is the error that reports the rejection `f`.
pub open spec fn fault_error(e: Error, f: RxFault) -> bool {
    match f {
        RxFault::EmptyFrame => is_invalid_frame_error(e, "Empty frame received"@),
        RxFault::InvalidPci => is_invalid_frame_error(e, "Invalid PCI type"@),
        RxFault::InvalidSingleLength => is_invalid_frame_error(e, "Invalid single frame length"@),
        RxFault::UnexpectedType => is_invalid_frame_error(e, "Unexpected frame type"@),
        RxFault::SequenceMismatch { expected, got } => is_transport_error(
            e,
            sequence_mismatch_message(expected, got),
        ),
        RxFault::ExpectedConsecutive => is_invalid_frame_error(e, "Expected consecutive frame"@),
    }
}

/// A concrete outcome realises an abstract result.
pub open spec fn outcome_is(o: RxOutcome, r: RxResult) -> bool {
    match (o, r) {
        (RxOutcome::Ignored, RxResult::Ignored) => true,
        (RxOutcome::Waiting, RxResult::Waiting) => true,
        (RxOutcome::Complete(v), RxResult::Complete(d)) => v@ == d,
        (RxOutcome::Failed(e), RxResult::Failed(f)) => fault_error(e, f),
        _ => false,
    }
}

/// The effect of one frame: the flow-control frame to send, if any, and the outcome.
pub struct RxStep {
    /// A flow-control frame the receiver must send now.
    pub flow_control: Option<CanFrame>,
    /// What the frame did to the reception.
    pub outcome: RxOutcome,
}

/// Reassembles one ISO-TP message sent by `response_id`, answering first frames with
/// flow control addressed to `request_id`.
pub struct IsoTpReceiver {
    request_id: CanId,
    response_id: CanId,
    state: RxState,
}

impl IsoTpReceiver {
    /// The abstract state of the reception.
    pub closed spec fn model(&self) -> RxModel {
        state_model(self.state)
    }

    /// The identifier flow-control frames are addressed to.
    pub closed spec fn request(&self) -> CanId {
        self.request_id
    }

    /// The identifier whose frames are reassembled.
    pub closed spec fn response(&self) -> CanId {
        self.response_id
    }

    /// The reception state is consistent.
    pub closed spec fn wf(&self) -> bool {
        rx_model_wf(self.model())
    }

    /// A reception waiting for the first frame of a message from `response_id`.
    pub fn new(request_id: CanId, response_id: CanId) -> (r: IsoTpReceiver)
        ensures
            r.model() == RxModel::Idle,
            r.request() == request_id,
            r.response() == response_id,
            r.wf(),
    {
        IsoTpReceiver { request_id, response_id, state: RxState::Idle }
    }

    /// Whether the reception is defined on `frame` (see [`rx_accepts`]).
    pub fn accepts(&self, frame: &CanFrame) -> (r: bool)
        requires
            self.wf(),
        ensures
            r == rx_accepts(self.model(), self.response().0, frame.id.0, frame.data@),
    {
        if frame.id.0 != self.response_id.0 {
            return true;
        }
        match &self.state {
            RxState::Idle => {
                if frame.data.len() > 0 {
                    match PciType::from_byte(frame.data[0]) {
                        Some(PciType::FirstFrame) => frame.data.len() >= 2,
                        _ => true,
                    }
                } else {
                    true
                }
            },
            RxState::Collecting { length, data, expected_sequence } => {
                if frame.data.len() == 0 {
                    return false;
                }
                match PciType::from_byte(frame.data[0]) {
                    Some(PciType::ConsecutiveFrame) => {
                        if (frame.data[0] & 0x0F) == *expected_sequence {
                            let remaining = (*length as usize) - data.len();
                            let chunk = if remaining < 7 {
                                remaining
                            } else {
                                7
                            };
                            frame.data.len() >= 1 + chunk
                        } else {
                            true
                        }
                    },
                    _ => true,
                }
            },
            RxState::Finished => true,
        }
    }

    /// Processes one incoming frame; see [`rx_step`] for what it does.
    pub fn on_frame(&mut self, frame: &CanFrame) -> (r: RxStep)
        requires
            old(self).wf(),
            rx_accepts(old(self).model(), old(self).response().0, frame.id.0, frame.data@),
        ensures
            ({
                let (m, fc, res) = rx_step(
                    old(self).model(),
                    old(self).response().0,
                    frame.id.0,
                    frame.data@,
                );
                &&& final(self).model() == m
                &&& final(self).wf()
                &&& final(self).request() == old(self).request()
                &&& final(self).response() == old(self).response()
                &&& (fc ==> (r.flow_control matches Some(f) && f.id == old(self).request()
                    && f.data@ == fc_bytes()))
                &&& (!fc ==> r.flow_control is None)
                &&& outcome_is(r.outcome, res)
            }),
    {
        if frame.id.0 != self.response_id.0 {
            return RxStep { flow_control: None, outcome: RxOutcome::Ignored };
        }
        let mut state = RxState::Finished;
        std::mem::swap(&mut state, &mut self.state);
        match state {
            RxState::Finished => {
                RxStep { flow_control: None, outcome: RxOutcome::Ignored }
            },
            RxState::Idle => {
                if frame.data.len() == 0 {
                    return RxStep {
                        flow_control: None,
                        outcome: RxOutcome::Failed(Error::invalid_frame("Empty frame received")),
                    };
                }
                let b0 = frame.data[0];
                match PciType::from_byte(b0) {
                    None => RxStep {
                        flow_control: None,
                        outcome: RxOutcome::Failed(Error::invalid_frame("Invalid PCI type")),
                    },
                    Some(PciType::SingleFrame) => {
                        let length = (b0 & 0x0F) as usize;
                        if length > frame.data.len() - 1 {
                            return RxStep {
                                flow_control: None,
                                outcome: RxOutcome::Failed(
                                    Error::invalid_frame("Invalid single frame length"),
                                ),
                            };
                        }
                        let payload = copy_range(frame.data.as_slice(), 1, length + 1);
                        RxStep { flow_control: None, outcome: RxOutcome::Complete(payload) }
                    },
                    Some(PciType::FirstFrame) => {
                        let b1 = frame.data[1];
                        let length: u16 = (((b0 & 0x0F) as u16) << 8u16) | (b1 as u16);
                        assert(length <= 0xFFF) by (bit_vector)
                            requires
                                length == (((b0 & 0x0F) as u16) << 8u16) | (b1 as u16),
                        ;
                        let mut data = copy_range(frame.data.as_slice(), 2, frame.data.len());
                        let fc = CanFrame::new(
                            self.request_id,
                            vec![0x30u8, 0x00u8, 0x00u8, 0x55u8, 0x55u8, 0x55u8, 0x55u8, 0x55u8],
                        );
                        proof {
                            assert(fc.data@ =~= fc_bytes());
                        }
                        if data.len() >= length as usize {
                            data.truncate(length as usize);
                            proof {
                                assert(data@ =~= frame.data@.subrange(
                                    2,
                                    frame.data@.len() as int,
                                ).take(length as int));
                            }
                            RxStep { flow_control: Some(fc), outcome: RxOutcome::Complete(data) }
                        } else {
                            self.state = RxState::Collecting {
                                length,
                                data,
                                expected_sequence: 1,
                            };
                            RxStep { flow_control: Some(fc), outcome: RxOutcome::Waiting }
                        }
                    },
                    _ => RxStep {
                        flow_control: None,
                        outcome: RxOutcome::Failed(Error::invalid_frame("Unexpected frame type")),
                    },
                }
            },
            RxState::Collecting { length, data, expected_sequence } => {
                let b0 = frame.data[0];
                match PciType::from_byte(b0) {
                    None => RxStep {
                        flow_control: None,
                        outcome: RxOutcome::Failed(Error::invalid_frame("Invalid PCI type")),
                    },
                    Some(PciType::ConsecutiveFrame) => {
                        let sequence = b0 & 0x0F;
                        if sequence != expected_sequence {
                            let mut m = String::from_str("Sequence mismatch: expected ");
                            push_decimal(&mut m, expected_sequence as u64);
                            m.append(", got ");
                            push_decimal(&mut m, sequence as u64);
                            return RxStep {
                                flow_control: None,
                                outcome: RxOutcome::Failed(Error::Transport { message: m }),
                            };
                        }
                        let remaining = (length as usize) - data.len();
                        let chunk_size = if remaining < 7 {
                            remaining
                        } else {
                            7
                        };
                        let mut data = data;
                        let ghost before = data@;
                        let mut i: usize = 1;
                        while i <= chunk_size
                            invariant
                                1 <= i <= chunk_size + 1,
                                chunk_size <= 7,
                                chunk_size + 1 <= frame.data@.len(),
                                data@ == before + frame.data@.subrange(1, i as int),
                            decreases chunk_size + 1 - i,
                        {
                            data.push(frame.data[i]);
                            i = i + 1;
                            proof {
                                assert(data@ =~= before + frame.data@.subrange(1, i as int));
                            }
                        }
                        if data.len() >= length as usize {
                            RxStep { flow_control: None, outcome: RxOutcome::Complete(data) }
                        } else {
                            self.state = RxState::Collecting {
                                length,
                                data,
                                expected_sequence: ((expected_sequence as u16 + 1) % 16) as u8,
                            };
                            RxStep { flow_control: None, outcome: RxOutcome::Waiting }
                        }
                    },
                    _ => RxStep {
                        flow_control: None,
                        outcome: RxOutcome::Failed(Error::invalid_frame("Expected consecutive frame")),
                    },
                }
            },
        }
    }
}

} // verus!
