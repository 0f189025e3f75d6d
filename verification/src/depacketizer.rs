//! The fragment reassembly state machine.
//!
//! A depacketizer consumes one RTP/JPEG fragment at a time. A fragment with
//! offset 0 starts a frame: its quantization tables are resolved (generated,
//! cached, or taken inline), a JPEG header is synthesized into the assembly
//! buffer, and the frame's metadata is recorded. Every accepted fragment's
//! scan data is appended, and the fragment carrying the transport marker
//! completes the frame, which is then retrieved with [`Depacketizer::pull`].
//!
//! The whole per-fragment step is specified by [`push_outcome`], a
//! mathematical transition function from (state, fragment) to (state,
//! result); [`Depacketizer::push`] is proved to implement it exactly.

use vstd::prelude::*;
use vstd::pervasive::VecAdditionalExecFns;
use crate::bytebuf::bytes_as_slice;
use crate::bytebuf::bytes_clone;
use crate::bytebuf::bytes_content;
use crate::bytebuf::bytes_from_vec;
use crate::bytebuf::bytes_slice;
use crate::headers::append_slice;
use crate::headers::headers_bytes;
use crate::headers::headers_ok;
use crate::headers::make_headers;
use crate::tables::make_tables;
use crate::tables::quant_tables;
use crate::types::CodecItem;
use crate::types::Error;
use crate::types::FrameModel;
use crate::types::PacketContext;
use crate::types::PacketModel;
use crate::types::ReceivedPacket;
use crate::types::Timestamp;
use crate::types::VideoFrame;
use crate::types::VideoParameters;

verus! {

/// An in-progress frame never grows beyond this many bytes; a fragment
/// stream that exceeds it without completing is discarded.
pub const MAX_FRAME_LEN: usize = 2_000_000;

/// Metadata of the frame currently being assembled, recorded when its start
/// fragment is accepted.
#[derive(Clone, Copy, Debug, PartialEq, Eq, Structural)]
pub struct FrameMetadata {
    /// Context of the start fragment.
    pub start_ctx: PacketContext,
    /// Timestamp of the start fragment; later fragments must match it.
    pub timestamp: Timestamp,
    /// Dimensions declared by the start fragment.
    pub parameters: VideoParameters,
}

/// Mathematical state of a depacketizer: the recorded frame metadata, the
/// assembly buffer, the 255-slot quantization-table cache, the single
/// completed-frame slot, and the last published parameters.
#[verifier::ext_equal]
pub struct DepacketizerModel {
    pub metadata: Option<FrameMetadata>,
    pub data: Seq<u8>,
    pub qtables: Seq<Option<Seq<u8>>>,
    pub pending: Option<FrameModel>,
    pub parameters: Option<VideoParameters>,
}

impl DepacketizerModel {
    /// State invariant: the cache always has one slot per quality index
    /// below 255, the assembly buffer is bounded, and an idle depacketizer
    /// holds no buffered bytes.
    pub open spec fn inv(self) -> bool {
        &&& self.qtables.len() == 255
        &&& self.data.len() <= MAX_FRAME_LEN
        &&& (self.metadata is None ==> self.data.len() == 0)
    }

    /// The state of a freshly constructed depacketizer.
    pub open spec fn initial() -> DepacketizerModel {
        DepacketizerModel {
            metadata: None,
            data: Seq::empty(),
            qtables: Seq::new(255, |i: int| None),
            pending: None,
            parameters: None,
        }
    }
}

/// Abandon the current frame attempt: back to idle with an empty assembly
/// buffer. Cache, pending slot, and published parameters are kept.
pub open spec fn abort(s: DepacketizerModel) -> DepacketizerModel {
    DepacketizerModel { metadata: None, data: Seq::empty(), ..s }
}

/// The 24-bit big-endian fragment offset of a payload's fixed header.
pub open spec fn frag_offset(p: Seq<u8>) -> int {
    p[1] * 0x10000 + p[2] * 0x100 + p[3]
}

/// Total length of the fixed header plus the restart-marker extension,
/// which is present exactly when the type-specific byte exceeds 63.
pub open spec fn hdr_len(p: Seq<u8>) -> int {
    if p[4] > 63 {
        12
    } else {
        8
    }
}

/// The restart interval: the first two extension bytes, big-endian, or 0
/// when the extension is absent.
pub open spec fn parsed_dri(p: Seq<u8>) -> u16 {
    if p[4] > 63 {
        (p[8] * 256 + p[9]) as u16
    } else {
        0u16
    }
}

/// Precision byte of the inline quantization-table header.
pub open spec fn inline_precision(p: Seq<u8>) -> u8 {
    p[hdr_len(p) + 1]
}

/// Length field of the inline quantization-table header, big-endian.
pub open spec fn inline_len(p: Seq<u8>) -> int {
    p[hdr_len(p) + 2] * 256 + p[hdr_len(p) + 3]
}

/// Whether the assembled bytes already end in the EOI marker.
pub open spec fn ends_with_eoi(d: Seq<u8>) -> bool {
    d.len() >= 2 && d[d.len() - 2] == 0xff && d[d.len() - 1] == 0xd9
}

/// A completed frame's bytes: the assembled buffer, with EOI appended
/// unless it is already present.
pub open spec fn finalize_data(d: Seq<u8>) -> Seq<u8> {
    if ends_with_eoi(d) {
        d
    } else {
        d + seq![0xffu8, 0xd9u8]
    }
}

/// Accept `rest` (a fragment's scan data) into state `s`, completing the
/// frame when the fragment `f` carries the marker. A fragment whose
/// timestamp differs from the recorded one is silently ignored.
pub open spec fn accumulate(s: DepacketizerModel, f: PacketModel, rest: Seq<u8>) -> (
    DepacketizerModel,
    Result<(), Error>,
) {
    if s.metadata is None {
        (abort(s), Err(Error::MissingFrameStart))
    } else {
        let m = s.metadata.unwrap();
        if m.timestamp.timestamp != f.timestamp.timestamp {
            (s, Ok(()))
        } else {
            let d = s.data + rest;
            if f.mark && d.len() >= 2 {
                let has_new = s.parameters != Some(m.parameters);
                let frame = FrameModel {
                    start_ctx: m.start_ctx,
                    end_ctx: f.ctx,
                    has_new_parameters: has_new,
                    loss: f.loss,
                    timestamp: f.timestamp,
                    stream_id: f.stream_id,
                    is_random_access_point: false,
                    is_disposable: true,
                    data: finalize_data(d),
                };
                (
                    DepacketizerModel {
                        metadata: None,
                        data: Seq::empty(),
                        pending: Some(frame),
                        parameters: if has_new {
                            Some(m.parameters)
                        } else {
                            s.parameters
                        },
                        ..s
                    },
                    Ok(()),
                )
            } else {
                let s1 = DepacketizerModel { data: d, ..s };
                (
                    if d.len() > MAX_FRAME_LEN {
                        abort(s1)
                    } else {
                        s1
                    },
                    Ok(()),
                )
            }
        }
    }
}

/// Synthesize the JPEG header for a resolved table and record the frame's
/// metadata, then accept the start fragment's scan data.
pub open spec fn synthesize(
    s: DepacketizerModel,
    f: PacketModel,
    table: Seq<u8>,
    precision: u8,
    rest: Seq<u8>,
) -> (DepacketizerModel, Result<(), Error>) {
    let p = f.payload;
    if !headers_ok(table.len() as int, precision) {
        (abort(s), Err(Error::InsufficientQuantData))
    } else {
        let width = (p[6] * 8) as u16;
        let height = (p[7] * 8) as u16;
        let m = FrameMetadata {
            start_ctx: f.ctx,
            timestamp: f.timestamp,
            parameters: VideoParameters { width: width as u32, height: height as u32 },
        };
        let s1 = DepacketizerModel {
            metadata: Some(m),
            data: headers_bytes(p[4], width, height, table, precision, parsed_dri(p)),
            ..s
        };
        accumulate(s1, f, rest)
    }
}

/// Handle a start fragment (offset 0): resolve the quantization tables per
/// the quality index, then synthesize and accumulate.
pub open spec fn start_frame(s: DepacketizerModel, f: PacketModel) -> (
    DepacketizerModel,
    Result<(), Error>,
) {
    let p = f.payload;
    let q = p[5];
    if q >= 128 {
        if p.len() < hdr_len(p) + 4 {
            (abort(s), Err(Error::InvalidPacket))
        } else if inline_len(p) > p.len() - (hdr_len(p) + 4) {
            (abort(s), Err(Error::InvalidPacket))
        } else if inline_len(p) == 0 {
            if q == 255 {
                (abort(s), Err(Error::InvalidQuantSpec))
            } else if s.qtables[q as int] is None {
                (abort(s), Err(Error::MissingQuantTable))
            } else {
                synthesize(
                    s,
                    f,
                    s.qtables[q as int].unwrap(),
                    inline_precision(p),
                    p.skip(hdr_len(p) + 4),
                )
            }
        } else {
            let table = p.subrange(hdr_len(p) + 4, hdr_len(p) + 4 + inline_len(p));
            let s1 = if q < 255 {
                DepacketizerModel { qtables: s.qtables.update(q as int, Some(table)), ..s }
            } else {
                s
            };
            synthesize(s1, f, table, inline_precision(p), p.skip(hdr_len(p) + 4 + inline_len(p)))
        }
    } else {
        if s.qtables[q as int] is Some {
            synthesize(s, f, s.qtables[q as int].unwrap(), 0, p.skip(hdr_len(p)))
        } else {
            let s1 = DepacketizerModel {
                qtables: s.qtables.update(q as int, Some(quant_tables(q as int))),
                ..s
            };
            synthesize(s1, f, quant_tables(q as int), 0, p.skip(hdr_len(p)))
        }
    }
}

/// The complete per-fragment transition: from a state and a received
/// fragment to the next state and the result the caller sees.
pub open spec fn push_outcome(s: DepacketizerModel, f: PacketModel) -> (
    DepacketizerModel,
    Result<(), Error>,
) {
    let p = f.payload;
    if p.len() < 8 {
        (abort(s), Err(Error::InvalidPacket))
    } else if frag_offset(p) > 0 && s.metadata is None {
        (abort(s), Err(Error::OrphanFragment))
    } else if p[4] > 63 && p.len() < 12 {
        (abort(s), Err(Error::InvalidPacket))
    } else if frag_offset(p) == 0 {
        start_frame(s, f)
    } else {
        accumulate(s, f, p.skip(hdr_len(p)))
    }
}

/// The view of the cache: each slot's bytes, or `None` where empty.
pub open spec fn cache_model(v: Seq<Option<bytes::Bytes>>) -> Seq<Option<Seq<u8>>> {
    Seq::new(
        v.len(),
        |i: int|
            match v[i] {
                Some(b) => Some(bytes_content(b)),
                None => None,
            },
    )
}

/// Whether the last published parameters equal the current frame's.
fn params_match(published: &Option<VideoParameters>, current: &VideoParameters) -> (r: bool)
    ensures
        r == (*published == Some(*current)),
{
    match published {
        Some(p) => p.width == current.width && p.height == current.height,
        None => false,
    }
}

/// Reassembles fragmented RTP/JPEG into complete image frames as specified
/// in RFC 2435.
pub struct Depacketizer {
    /// Metadata of the frame currently being assembled.
    metadata: Option<FrameMetadata>,
    /// Backing storage of the assembled frame.
    data: Vec<u8>,
    /// Cached quantization tables, one slot per quality index below 255.
    qtables: Vec<Option<bytes::Bytes>>,
    /// A complete video frame ready for pull.
    pending: Option<VideoFrame>,
    /// The last published video parameters.
    parameters: Option<VideoParameters>,
}

impl View for Depacketizer {
    type V = DepacketizerModel;

    closed spec fn view(&self) -> DepacketizerModel {
        DepacketizerModel {
            metadata: self.metadata,
            data: self.data@,
            qtables: cache_model(self.qtables@),
            pending: match self.pending {
                Some(frame) => Some(frame@),
                None => None,
            },
            parameters: self.parameters,
        }
    }
}

impl Depacketizer {
    pub fn new() -> (d: Depacketizer)
        ensures
            d@ == DepacketizerModel::initial(),
            d@.inv(),
    {
        let mut qtables: Vec<Option<bytes::Bytes>> = Vec::new();
        let mut i: usize = 0;
        while i < 255
            invariant
                i <= 255,
                qtables@.len() == i,
                forall|j: int| 0 <= j < i ==> qtables@[j] is None,
            decreases 255 - i,
        {
            qtables.push(None);
            i += 1;
        }
        let d = Depacketizer {
            metadata: None,
            data: Vec::new(),
            qtables,
            pending: None,
            parameters: None,
        };
        proof {
            assert(d@.qtables =~= DepacketizerModel::initial().qtables);
            assert(d@ =~~= DepacketizerModel::initial());
        }
        d
    }

    /// Abandon the current frame attempt: back to idle, empty buffer.
    fn abort_frame(&mut self)
        ensures
            final(self)@ == abort(old(self)@),
    {
        self.metadata = None;
        self.data.clear();
        proof {
            assert(self@ =~~= abort(old(self)@));
        }
    }

    /// Handle a start fragment: resolve the quantization tables, synthesize
    /// the JPEG header into the (cleared) assembly buffer, and record the
    /// frame's metadata, as [`start_frame`] specifies. On success the
    /// returned position is where the fragment's scan data begins; the
    /// remaining work is exactly [`accumulate`] from there.
    fn begin_frame(
        &mut self,
        pkt: &ReceivedPacket,
        pos0: usize,
        dri: u16,
        type_specific: u8,
        q: u8,
        width: u16,
        height: u16,
        ctx: PacketContext,
        timestamp: Timestamp,
    ) -> (r: Result<usize, Error>)
        requires
            old(self)@.inv(),
            pkt@.payload.len() >= 8,
            pkt@.payload[4] > 63 ==> pkt@.payload.len() >= 12,
            frag_offset(pkt@.payload) == 0,
            pos0 as int == hdr_len(pkt@.payload),
            dri == parsed_dri(pkt@.payload),
            type_specific == pkt@.payload[4],
            q == pkt@.payload[5],
            width as int == pkt@.payload[6] * 8,
            height as int == pkt@.payload[7] * 8,
            ctx == pkt@.ctx,
            timestamp == pkt@.timestamp,
        ensures
            final(self)@.qtables.len() == 255,
            match r {
                Ok(pos) => {
                    &&& pos0 <= pos <= pkt@.payload.len()
                    &&& final(self)@.metadata is Some
                    &&& start_frame(old(self)@, pkt@) == accumulate(
                        final(self)@,
                        pkt@,
                        pkt@.payload.skip(pos as int),
                    )
                },
                Err(e) => {
                    &&& final(self)@.inv()
                    &&& final(self)@ == start_frame(old(self)@, pkt@).0
                    &&& Err::<(), Error>(e) == start_frame(old(self)@, pkt@).1
                },
            },
    {
        let ghost s0 = self@;
        let ghost f = pkt@;
        let ghost bigp = f.payload;

        let p = bytes_as_slice(&pkt.payload);
        let mut pos = pos0;
        let precision: u8;
        let table: bytes::Bytes;

        if q >= 128 {
            if p.len() - pos < 4 {
                self.abort_frame();
                return Err(Error::InvalidPacket);
            }
            // Inline quantization-table header: reserved byte, precision,
            // 16-bit big-endian length, then table data.
            precision = p[pos + 1];
            let length: usize = (p[pos + 2] as usize) * 256 + (p[pos + 3] as usize);
            assert(length as int == inline_len(bigp));

            if length > p.len() - (pos + 4) {
                self.abort_frame();
                return Err(Error::InvalidPacket);
            }

            if length == 0 {
                if q == 255 {
                    // The format forbids omitting the table at index 255.
                    self.abort_frame();
                    return Err(Error::InvalidQuantSpec);
                }
                match &self.qtables[q as usize] {
                    Some(cached) => {
                        table = bytes_clone(cached);
                    },
                    None => {
                        self.abort_frame();
                        return Err(Error::MissingQuantTable);
                    },
                }
                pos = pos + 4;
            } else {
                table = bytes_slice(&pkt.payload, pos + 4, pos + 4 + length);
                if q < 255 {
                    let cached = bytes_clone(&table);
                    self.qtables.set(q as usize, Some(cached));
                    proof {
                        assert(self@.qtables =~= s0.qtables.update(
                            q as int,
                            Some(bytes_content(table)),
                        ));
                    }
                }
                pos = pos + 4 + length;
            }
        } else {
            precision = 0;
            match &self.qtables[q as usize] {
                Some(cached) => {
                    table = bytes_clone(cached);
                },
                None => {
                    let generated = make_tables(q as i32);
                    let fresh = bytes_from_vec(generated);
                    table = bytes_clone(&fresh);
                    self.qtables.set(q as usize, Some(fresh));
                    proof {
                        assert(self@.qtables =~= s0.qtables.update(
                            q as int,
                            Some(quant_tables(q as int)),
                        ));
                    }
                },
            }
        }

        proof {
            assert(start_frame(s0, f) == synthesize(
                self@,
                f,
                bytes_content(table),
                precision,
                bigp.skip(pos as int),
            ));
        }
        let ghost s_before_synth = self@;

        self.data.clear();
        let table_slice = bytes_as_slice(&table);
        match make_headers(&mut self.data, type_specific, width, height, table_slice, precision, dri)
        {
            Ok(_) => {
                proof {
                    assert(self@.data =~= headers_bytes(
                        bigp[4],
                        (bigp[6] * 8) as u16,
                        (bigp[7] * 8) as u16,
                        bytes_content(table),
                        precision,
                        parsed_dri(bigp),
                    ));
                }
            },
            Err(e) => {
                self.abort_frame();
                proof {
                    assert(self@ =~~= abort(s_before_synth));
                }
                return Err(e);
            },
        }

        self.metadata = Some(
            FrameMetadata {
                start_ctx: ctx,
                timestamp,
                parameters: VideoParameters { width: width as u32, height: height as u32 },
            },
        );
        proof {
            assert(start_frame(s0, f) == accumulate(self@, f, bigp.skip(pos as int)));
        }
        Ok(pos)
    }

    /// Process one fragment: the state changes to `push_outcome(..).0` and
    /// exactly `push_outcome(..).1` is returned.
    ///
    /// Pushing while a completed frame is unretrieved is a contract
    /// violation, excluded by the precondition.
    pub fn push(&mut self, pkt: ReceivedPacket) -> (r: Result<(), Error>)
        requires
            old(self)@.inv(),
            old(self)@.pending is None,
        ensures
            final(self)@.inv(),
            final(self)@ == push_outcome(old(self)@, pkt@).0,
            r == push_outcome(old(self)@, pkt@).1,
    {
        let ghost s0 = self@;
        let ghost f = pkt@;
        let ghost bigp = f.payload;

        let p = bytes_as_slice(&pkt.payload);

        if p.len() < 8 {
            self.abort_frame();
            return Err(Error::InvalidPacket);
        }

        let ctx = pkt.ctx;
        let loss = pkt.loss;
        let stream_id = pkt.stream_id;
        let timestamp = pkt.timestamp;
        let last_packet_in_frame = pkt.mark;

        let frag_offset_v: u32 = (p[1] as u32) * 65536 + (p[2] as u32) * 256 + (p[3] as u32);
        assert(frag_offset_v as int == frag_offset(bigp));
        let type_specific = p[4];
        let q = p[5];
        let width: u16 = (p[6] as u16) * 8;
        let height: u16 = (p[7] as u16) * 8;

        if frag_offset_v > 0 && self.metadata.is_none() {
            self.abort_frame();
            return Err(Error::OrphanFragment);
        }

        let mut pos: usize = 8;
        let mut dri: u16 = 0;
        if type_specific > 63 {
            if p.len() - 8 < 4 {
                self.abort_frame();
                return Err(Error::InvalidPacket);
            }
            // Restart-marker extension: interval, then flags and count.
            dri = (p[8] as u16) * 256 + (p[9] as u16);
            pos = 12;
        }
        assert(pos as int == hdr_len(bigp));
        assert(dri == parsed_dri(bigp));

        if frag_offset_v == 0 {
            match self.begin_frame(&pkt, pos, dri, type_specific, q, width, height, ctx, timestamp)
            {
                Ok(new_pos) => {
                    pos = new_pos;
                },
                Err(e) => {
                    return Err(e);
                },
            }
        }

        proof {
            assert(push_outcome(s0, f) == accumulate(self@, f, bigp.skip(pos as int)));
        }
        let ghost s_acc = self@;

        let m: FrameMetadata = match &self.metadata {
            Some(m) => *m,
            None => {
                // Unreachable: a continuation without a recorded start has
                // already been rejected, and a start fragment records one.
                proof {
                    assert(false);
                }
                self.abort_frame();
                return Err(Error::MissingFrameStart);
            },
        };

        if m.timestamp.timestamp != timestamp.timestamp {
            // Some senders reuse timestamps incorrectly across frame
            // boundaries; tolerate the fragment with no state change.
            proof {
                assert(self@ =~~= s_acc);
            }
            return Ok(());
        }

        let rest = vstd::slice::slice_subrange(p, pos, p.len());
        proof {
            assert(rest@ =~= bigp.skip(pos as int));
        }
        append_slice(&mut self.data, rest);

        if last_packet_in_frame && self.data.len() >= 2 {
            let b1 = self.data[self.data.len() - 2];
            let b2 = self.data[self.data.len() - 1];
            if !(b1 == 0xff && b2 == 0xd9) {
                // Add the EOI marker.
                self.data.push(0xff);
                self.data.push(0xd9);
            }
            proof {
                assert(self.data@ =~= finalize_data(s_acc.data + bigp.skip(pos as int)));
            }

            let has_new_parameters = !params_match(&self.parameters, &m.parameters);

            let mut frame_data: Vec<u8> = Vec::new();
            core::mem::swap(&mut frame_data, &mut self.data);
            self.pending = Some(
                VideoFrame {
                    start_ctx: m.start_ctx,
                    end_ctx: ctx,
                    has_new_parameters,
                    loss,
                    timestamp,
                    stream_id,
                    is_random_access_point: false,
                    is_disposable: true,
                    data: frame_data,
                },
            );
            self.metadata = None;
            if has_new_parameters {
                self.parameters = Some(m.parameters);
            }
            proof {
                assert(self@ =~~= accumulate(s_acc, f, bigp.skip(pos as int)).0);
            }
            return Ok(());
        }

        if self.data.len() > MAX_FRAME_LEN {
            // Bound memory against corrupt or never-terminated streams.
            self.abort_frame();
        }
        proof {
            assert(self@ =~~= accumulate(s_acc, f, bigp.skip(pos as int)).0);
        }
        Ok(())
    }

    /// Non-blocking retrieval of the completed frame, if one is waiting.
    pub fn pull(&mut self) -> (r: Option<CodecItem>)
        ensures
            final(self)@ == (DepacketizerModel { pending: None, ..old(self)@ }),
            r is Some <==> old(self)@.pending is Some,
            r matches Some(CodecItem::VideoFrame(frame)) ==> old(self)@.pending == Some(frame@),
    {
        let taken = self.pending.take();
        let r = match taken {
            Some(frame) => Some(CodecItem::VideoFrame(frame)),
            None => None,
        };
        proof {
            assert(self@ =~~= (DepacketizerModel { pending: None, ..old(self)@ }));
        }
        r
    }

    /// The last published video parameters, or `None` before the first
    /// completed frame.
    pub fn parameters(&self) -> (r: Option<VideoParameters>)
        ensures
            r == self@.parameters,
    {
        self.parameters
    }
}

impl Default for Depacketizer {
    fn default() -> (d: Self)
        ensures
            d@ == DepacketizerModel::initial(),
            d@.inv(),
    {
        Depacketizer::new()
    }
}

/// A fragment that starts a frame (offset 0) with quality index `q` below
/// 128, long enough for its declared headers.
pub open spec fn is_generated_start(f: PacketModel, q: u8) -> bool {
    &&& f.payload.len() >= 8
    &&& frag_offset(f.payload) == 0
    &&& f.payload[5] == q
    &&& q < 128
    &&& (f.payload[4] > 63 ==> f.payload.len() >= 12)
}

/// A fragment that continues a frame (offset nonzero), long enough for its
/// declared headers.
pub open spec fn is_continuation(f: PacketModel) -> bool {
    &&& f.payload.len() >= 8
    &&& frag_offset(f.payload) > 0
    &&& (f.payload[4] > 63 ==> f.payload.len() >= 12)
}

/// A fragment's scan data: everything after the fixed header and the
/// restart-marker extension.
pub open spec fn scan_data(f: PacketModel) -> Seq<u8> {
    f.payload.skip(hdr_len(f.payload))
}

/// Finalizing a buffer is idempotent: a buffer already ending in EOI is
/// unchanged, any other gets exactly one EOI pair appended, and finalizing
/// a finalized buffer changes nothing.
pub proof fn lemma_eoi_idempotent(d: Seq<u8>)
    ensures
        ends_with_eoi(finalize_data(d)),
        finalize_data(finalize_data(d)) == finalize_data(d),
        ends_with_eoi(d) ==> finalize_data(d) == d,
        !ends_with_eoi(d) ==> finalize_data(d) == d + seq![0xffu8, 0xd9u8],
{
    if !ends_with_eoi(d) {
        let d2 = d + seq![0xffu8, 0xd9u8];
        assert(d2[d2.len() - 2] == 0xff);
        assert(d2[d2.len() - 1] == 0xd9);
    }
}

/// A fragment whose timestamp differs from the active frame's leaves the
/// state unchanged — buffer, metadata, cache, everything — and yields no
/// error.
pub proof fn lemma_timestamp_mismatch_ignored(s: DepacketizerModel, f: PacketModel)
    requires
        s.metadata matches Some(m) && m.timestamp.timestamp != f.timestamp.timestamp,
        is_continuation(f),
    ensures
        push_outcome(s, f) == (s, Ok::<(), Error>(())),
{
}

/// A frame whose accumulated size would exceed the bound without reaching
/// its last fragment is discarded: the machine returns to idle with an
/// empty buffer, keeping only cache, pending slot, and parameters.
pub proof fn lemma_overflow_discards(s: DepacketizerModel, f: PacketModel)
    requires
        s.metadata matches Some(m) && m.timestamp.timestamp == f.timestamp.timestamp,
        is_continuation(f),
        !f.mark,
        s.data.len() + scan_data(f).len() > MAX_FRAME_LEN,
    ensures
        push_outcome(s, f) == (abort(s), Ok::<(), Error>(())),
{
}

/// A start fragment's outcome depends only on the cache, the published
/// parameters, and the pending slot: residue of a discarded or aborted
/// frame — stale metadata, leftover buffer bytes — cannot influence it.
pub proof fn lemma_start_ignores_residue(
    s1: DepacketizerModel,
    s2: DepacketizerModel,
    f: PacketModel,
)
    requires
        s1.qtables == s2.qtables,
        s1.parameters == s2.parameters,
        s1.pending == s2.pending,
        f.payload.len() >= 8,
        frag_offset(f.payload) == 0,
    ensures
        push_outcome(s1, f) == push_outcome(s2, f),
{
    assert(abort(s1) =~~= abort(s2));
}

/// A start fragment whose quality index has no cached table generates the
/// table, caches it under that index, and always succeeds: generated
/// tables are exactly 128 bytes, which an 8-bit precision header needs.
pub proof fn lemma_generated_table_cached(s: DepacketizerModel, f: PacketModel, q: u8)
    requires
        s.inv(),
        is_generated_start(f, q),
        s.qtables[q as int] is None,
    ensures
        push_outcome(s, f).1 == Ok::<(), Error>(()),
        push_outcome(s, f).0.qtables == s.qtables.update(q as int, Some(quant_tables(q as int))),
{
    crate::tables::lemma_quant_tables_bounded(q as int);
    let table = quant_tables(q as int);
    assert(table.len() == 128);
    assert(0u8 & 1u8 == 0u8) by (bit_vector);
    assert(0u8 & 2u8 == 0u8) by (bit_vector);
    assert(headers_ok(table.len() as int, 0));
}

/// A cache slot holding the generated table is reused, not regenerated:
/// the outcome from a hit equals the outcome from a miss on the same
/// index, so the cache is populated once and then only read.
pub proof fn lemma_cached_table_reused(s: DepacketizerModel, f: PacketModel, q: u8)
    requires
        s.inv(),
        is_generated_start(f, q),
        s.qtables[q as int] == Some(quant_tables(q as int)),
    ensures
        push_outcome(s, f) == push_outcome(
            DepacketizerModel { qtables: s.qtables.update(q as int, None), ..s },
            f,
        ),
{
    let s_miss = DepacketizerModel { qtables: s.qtables.update(q as int, None), ..s };
    let refilled = DepacketizerModel {
        qtables: s_miss.qtables.update(q as int, Some(quant_tables(q as int))),
        ..s_miss
    };
    assert(refilled.qtables =~= s.qtables);
    assert(refilled =~~= s);
}

/// Splitting the same scan data over two continuation fragments or over
/// one yields identical outcomes: fragmentation granularity is
/// observationally transparent. Applied repeatedly, any two
/// fragmentations of the same bytes into accepted fragments agree.
pub proof fn lemma_fragmentation_transparent(
    s: DepacketizerModel,
    f1: PacketModel,
    f2: PacketModel,
    g: PacketModel,
)
    requires
        s.metadata matches Some(m) && m.timestamp.timestamp == f1.timestamp.timestamp,
        is_continuation(f1),
        is_continuation(f2),
        is_continuation(g),
        !f1.mark,
        f2.mark == g.mark,
        f2.ctx == g.ctx,
        f2.loss == g.loss,
        f2.stream_id == g.stream_id,
        f2.timestamp == g.timestamp,
        f1.timestamp.timestamp == f2.timestamp.timestamp,
        scan_data(g) == scan_data(f1) + scan_data(f2),
        s.data.len() + scan_data(g).len() <= MAX_FRAME_LEN,
    ensures
        push_outcome(s, f1).1 == Ok::<(), Error>(()),
        push_outcome(push_outcome(s, f1).0, f2) == push_outcome(s, g),
{
    let s1 = push_outcome(s, f1).0;
    assert(s1 == DepacketizerModel { data: s.data + scan_data(f1), ..s });
    assert((s.data + scan_data(f1)) + scan_data(f2) =~= s.data + scan_data(g));
    let lhs = push_outcome(s1, f2);
    let rhs = push_outcome(s, g);
    assert(lhs.0 =~~= rhs.0);
}

} // verus!
