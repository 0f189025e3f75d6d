//! Reassembly of complete baseline JPEG frames from RTP/JPEG fragments
//! (RFC 2435): quantization-table generation, JPEG header synthesis,
//! quantization-table caching, and the fragment reassembly state machine.

pub mod bytebuf;
pub mod depacketizer;
pub mod headers;
pub mod tables;
pub mod types;

pub use depacketizer::Depacketizer;
pub use types::CodecItem;
pub use types::Error;
pub use types::PacketContext;
pub use types::ReceivedPacket;
pub use types::Timestamp;
pub use types::VideoFrame;
pub use types::VideoParameters;
