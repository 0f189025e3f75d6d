//! Shared data types: packets in, frames and parameters out, and the errors
//! a malformed fragment can produce.

use vstd::prelude::*;
use crate::bytebuf::bytes_content;

verus! {

/// Opaque diagnostic context attached to a received packet and carried
/// through to the frame built from it.
#[derive(Clone, Copy, Debug, PartialEq, Eq, Structural)]
pub struct PacketContext {}

impl PacketContext {
    pub fn dummy() -> (c: PacketContext) {
        PacketContext {}
    }
}

/// A presentation timestamp: media clock value plus the clock metadata the
/// transport negotiated.
#[derive(Clone, Copy, Debug, PartialEq, Eq, Structural)]
pub struct Timestamp {
    /// Media clock value of this packet or frame.
    pub timestamp: i64,
    /// Clock rate in Hz (90,000 for video).
    pub clock_rate: u32,
    /// Clock value at the start of the stream.
    pub start: u32,
}

/// Negotiated video parameters published alongside completed frames.
#[derive(Clone, Copy, Debug, PartialEq, Eq, Structural)]
pub struct VideoParameters {
    /// Pixel width of the frame.
    pub width: u32,
    /// Pixel height of the frame.
    pub height: u32,
}

/// Why a fragment was rejected. Each of these aborts only the current frame
/// attempt; the next start fragment begins a fresh frame.
#[derive(Clone, Copy, Debug, PartialEq, Eq, Structural)]
pub enum Error {
    /// The fixed header, restart-marker extension, or quantization-table
    /// header is truncated or inconsistent.
    InvalidPacket,
    /// A continuation fragment arrived while no frame was in progress.
    OrphanFragment,
    /// A start fragment omitted its quantization table and none is cached
    /// under its quality index.
    MissingQuantTable,
    /// A start fragment with quality index 255 omitted its quantization
    /// table, which the payload format forbids.
    InvalidQuantSpec,
    /// The supplied quantization data is shorter than the precision field
    /// implies.
    InsufficientQuantData,
    /// A fragment reached mid-frame handling without a recorded frame start.
    MissingFrameStart,
}

/// One RTP/JPEG fragment, as handed over by the transport: payload bytes
/// plus the per-packet metadata the reassembler reads.
pub struct ReceivedPacket {
    /// Diagnostic context of this packet.
    pub ctx: PacketContext,
    /// Index of the stream this packet belongs to.
    pub stream_id: usize,
    /// Presentation timestamp of the frame this fragment belongs to.
    pub timestamp: Timestamp,
    /// Cumulative count of packets lost before this one.
    pub loss: u16,
    /// The transport's marker bit: set on the final fragment of a frame.
    pub mark: bool,
    /// The RTP/JPEG payload: fixed header, optional extensions, scan data.
    pub payload: bytes::Bytes,
}

/// Mathematical view of a [`ReceivedPacket`]: the payload as a byte
/// sequence, everything else verbatim.
pub struct PacketModel {
    pub ctx: PacketContext,
    pub stream_id: usize,
    pub timestamp: Timestamp,
    pub loss: u16,
    pub mark: bool,
    pub payload: Seq<u8>,
}

impl View for ReceivedPacket {
    type V = PacketModel;

    open spec fn view(&self) -> PacketModel {
        PacketModel {
            ctx: self.ctx,
            stream_id: self.stream_id,
            timestamp: self.timestamp,
            loss: self.loss,
            mark: self.mark,
            payload: bytes_content(self.payload),
        }
    }
}

/// A completed, independently decodable JPEG frame.
pub struct VideoFrame {
    /// Context of the fragment that started the frame.
    pub start_ctx: PacketContext,
    /// Context of the fragment that completed the frame.
    pub end_ctx: PacketContext,
    /// Whether this frame's parameters differ from the last published ones.
    pub has_new_parameters: bool,
    /// Cumulative loss reported by the completing fragment.
    pub loss: u16,
    /// Presentation timestamp of the frame.
    pub timestamp: Timestamp,
    /// Index of the stream the frame belongs to.
    pub stream_id: usize,
    /// Every frame of this codec is independently decodable, so no frame is
    /// singled out as a random access point.
    pub is_random_access_point: bool,
    /// Every frame of this codec may be dropped without harming later ones.
    pub is_disposable: bool,
    /// The complete JPEG bitstream, SOI through EOI.
    pub data: Vec<u8>,
}

impl VideoFrame {
    /// The frame's bytes.
    pub fn data(&self) -> (d: &Vec<u8>)
        ensures
            d@ == self@.data,
    {
        &self.data
    }
}

/// Mathematical view of a [`VideoFrame`]: the bitstream as a byte sequence,
/// everything else verbatim.
#[verifier::ext_equal]
pub struct FrameModel {
    pub start_ctx: PacketContext,
    pub end_ctx: PacketContext,
    pub has_new_parameters: bool,
    pub loss: u16,
    pub timestamp: Timestamp,
    pub stream_id: usize,
    pub is_random_access_point: bool,
    pub is_disposable: bool,
    pub data: Seq<u8>,
}

impl View for VideoFrame {
    type V = FrameModel;

    open spec fn view(&self) -> FrameModel {
        FrameModel {
            start_ctx: self.start_ctx,
            end_ctx: self.end_ctx,
            has_new_parameters: self.has_new_parameters,
            loss: self.loss,
            timestamp: self.timestamp,
            stream_id: self.stream_id,
            is_random_access_point: self.is_random_access_point,
            is_disposable: self.is_disposable,
            data: self.data@,
        }
    }
}

/// An item produced by the depacketizer, retrieved by the caller.
pub enum CodecItem {
    VideoFrame(VideoFrame),
}

} // verus!
