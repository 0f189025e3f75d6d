//! Scenario tests for the reassembly state machine: caching, fragmentation
//! transparency, EOI handling, overflow recovery, timestamp tolerance, and
//! every error variant a fragment can produce.

use rtp_jpeg::CodecItem;
use rtp_jpeg::Depacketizer;
use rtp_jpeg::Error;
use rtp_jpeg::PacketContext;
use rtp_jpeg::ReceivedPacket;
use rtp_jpeg::Timestamp;

/// The synthesized header is 605 bytes without a restart interval.
const HEADER_LEN: usize = 605;

fn ts(t: i64) -> Timestamp {
    Timestamp { timestamp: t, clock_rate: 90_000, start: 0 }
}

fn packet(payload: Vec<u8>, timestamp: Timestamp, mark: bool) -> ReceivedPacket {
    ReceivedPacket {
        ctx: PacketContext::dummy(),
        stream_id: 0,
        timestamp,
        loss: 0,
        mark,
        payload: bytes::Bytes::from(payload),
    }
}

/// A start fragment: offset 0, no inline table (valid for q < 128).
fn start_payload(type_byte: u8, q: u8, w: u8, h: u8, scan: &[u8]) -> Vec<u8> {
    let mut p = vec![0u8, 0, 0, 0, type_byte, q, w, h];
    p.extend_from_slice(scan);
    p
}

/// A start fragment carrying an inline quantization table (q >= 128).
fn start_payload_inline(
    type_byte: u8,
    q: u8,
    w: u8,
    h: u8,
    precision: u8,
    table: &[u8],
    scan: &[u8],
) -> Vec<u8> {
    let mut p = vec![0u8, 0, 0, 0, type_byte, q, w, h];
    p.push(0); // reserved
    p.push(precision);
    p.push((table.len() >> 8) as u8);
    p.push(table.len() as u8);
    p.extend_from_slice(table);
    p.extend_from_slice(scan);
    p
}

/// A continuation fragment at the given nonzero offset.
fn cont_payload(offset: u32, type_byte: u8, q: u8, w: u8, h: u8, scan: &[u8]) -> Vec<u8> {
    let mut p = vec![
        0u8,
        (offset >> 16) as u8,
        (offset >> 8) as u8,
        offset as u8,
        type_byte,
        q,
        w,
        h,
    ];
    p.extend_from_slice(scan);
    p
}

fn pull_frame(d: &mut Depacketizer) -> rtp_jpeg::VideoFrame {
    match d.pull() {
        Some(CodecItem::VideoFrame(frame)) => frame,
        _ => panic!("expected a completed frame"),
    }
}

#[test]
fn end_to_end_two_fragments() {
    let mut d = Depacketizer::new();
    assert!(d.parameters().is_none());

    d.push(packet(start_payload(1, 50, 2, 3, &[0x12, 0x34]), ts(0), false)).unwrap();
    assert!(d.pull().is_none());
    d.push(packet(cont_payload(2, 1, 50, 2, 3, &[0x56, 0x78]), ts(0), true)).unwrap();

    let frame = pull_frame(&mut d);
    let data = frame.data();
    // SOI and the first DQT marker open the frame.
    assert_eq!(&data[..4], &[0xff, 0xd8, 0xff, 0xdb]);
    // The scan bytes follow the synthesized header, and EOI is appended.
    assert_eq!(&data[HEADER_LEN..], &[0x12, 0x34, 0x56, 0x78, 0xff, 0xd9]);
    assert_eq!(data.len(), HEADER_LEN + 4 + 2);
    // Declared dimensions are published, in pixels.
    let params = d.parameters().unwrap();
    assert_eq!(params.width, 16);
    assert_eq!(params.height, 24);
    assert!(frame.has_new_parameters);
    assert!(frame.is_disposable);
    assert!(!frame.is_random_access_point);
    // The slot is emptied by the pull.
    assert!(d.pull().is_none());
}

#[test]
fn generated_table_cached_and_reused() {
    let mut d = Depacketizer::new();
    d.push(packet(start_payload(1, 30, 2, 2, &[1, 2, 3]), ts(0), true)).unwrap();
    let first = pull_frame(&mut d);
    assert!(first.has_new_parameters);
    // The generated table is carried into the two DQT segments.
    let table = rtp_jpeg::tables::make_tables(30);
    assert_eq!(&first.data()[7..71], &table[..64]);
    assert_eq!(&first.data()[76..140], &table[64..]);

    // An identical frame at the same quality reuses the cached table and
    // produces byte-identical output.
    d.push(packet(start_payload(1, 30, 2, 2, &[1, 2, 3]), ts(1), true)).unwrap();
    let second = pull_frame(&mut d);
    assert_eq!(first.data(), second.data());
    // Parameters did not change the second time.
    assert!(!second.has_new_parameters);
}

#[test]
fn fragmentation_is_transparent() {
    let scan: Vec<u8> = (0u8..=255).cycle().take(600).collect();

    // Two fragments.
    let mut d2 = Depacketizer::new();
    d2.push(packet(start_payload(1, 40, 4, 4, &scan[..100]), ts(5), false)).unwrap();
    d2.push(packet(cont_payload(100, 1, 40, 4, 4, &scan[100..]), ts(5), true)).unwrap();
    let two = pull_frame(&mut d2);

    // Four fragments of the same bytes.
    let mut d4 = Depacketizer::new();
    d4.push(packet(start_payload(1, 40, 4, 4, &scan[..50]), ts(5), false)).unwrap();
    d4.push(packet(cont_payload(50, 1, 40, 4, 4, &scan[50..300]), ts(5), false)).unwrap();
    d4.push(packet(cont_payload(300, 1, 40, 4, 4, &scan[300..550]), ts(5), false)).unwrap();
    d4.push(packet(cont_payload(550, 1, 40, 4, 4, &scan[550..]), ts(5), true)).unwrap();
    let four = pull_frame(&mut d4);

    assert_eq!(two.data(), four.data());
}

#[test]
fn eoi_not_duplicated() {
    let mut d = Depacketizer::new();
    // The scan data already ends in EOI: nothing is appended.
    d.push(packet(start_payload(1, 50, 2, 2, &[0xab, 0xff, 0xd9]), ts(0), true)).unwrap();
    let frame = pull_frame(&mut d);
    assert_eq!(frame.data().len(), HEADER_LEN + 3);
    assert_eq!(&frame.data()[HEADER_LEN..], &[0xab, 0xff, 0xd9]);
}

#[test]
fn eoi_appended_once() {
    let mut d = Depacketizer::new();
    // A final 0xff alone is not EOI: exactly one EOI pair is appended.
    d.push(packet(start_payload(1, 50, 2, 2, &[0xab, 0xff, 0x00]), ts(0), true)).unwrap();
    let frame = pull_frame(&mut d);
    assert_eq!(&frame.data()[HEADER_LEN..], &[0xab, 0xff, 0x00, 0xff, 0xd9]);
}

#[test]
fn oversized_frame_discarded_next_start_clean() {
    let mut d = Depacketizer::new();
    d.push(packet(start_payload(1, 40, 4, 4, &[0u8; 100]), ts(0), false)).unwrap();
    // Grow past the 2,000,000-byte bound without a final fragment: the
    // frame is silently discarded.
    d.push(packet(cont_payload(100, 1, 40, 4, 4, &vec![0u8; 1_000_000]), ts(0), false)).unwrap();
    d.push(packet(cont_payload(200, 1, 40, 4, 4, &vec![0u8; 1_100_000]), ts(0), false)).unwrap();
    // The machine is idle again: a continuation is an orphan now.
    assert_eq!(
        d.push(packet(cont_payload(300, 1, 40, 4, 4, &[1, 2]), ts(0), true)),
        Err(Error::OrphanFragment)
    );
    // A fresh start fragment begins cleanly, with no residue.
    d.push(packet(start_payload(1, 40, 4, 4, &[9, 9]), ts(7), true)).unwrap();
    let frame = pull_frame(&mut d);
    assert_eq!(frame.data().len(), HEADER_LEN + 2 + 2);
    assert_eq!(&frame.data()[HEADER_LEN..], &[9, 9, 0xff, 0xd9]);
}

#[test]
fn timestamp_mismatch_ignored() {
    let mut d = Depacketizer::new();
    d.push(packet(start_payload(1, 50, 2, 2, &[1, 2]), ts(0), false)).unwrap();
    // A different timestamp mid-frame: tolerated, payload ignored.
    d.push(packet(cont_payload(2, 1, 50, 2, 2, &[0xaa, 0xbb]), ts(100), false)).unwrap();
    assert!(d.pull().is_none());
    // The frame completes from the matching fragments alone.
    d.push(packet(cont_payload(2, 1, 50, 2, 2, &[3, 4]), ts(0), true)).unwrap();
    let frame = pull_frame(&mut d);
    assert_eq!(&frame.data()[HEADER_LEN..], &[1, 2, 3, 4, 0xff, 0xd9]);
}

#[test]
fn restart_interval_parsed_into_header() {
    let mut d = Depacketizer::new();
    // Type 100 (> 63) carries the restart-marker extension.
    let mut p = vec![0u8, 0, 0, 0, 100, 50, 2, 2];
    p.extend_from_slice(&[0x00, 0x32, 0x00, 0x00]); // interval 50, flags 0
    p.extend_from_slice(&[1, 2]);
    d.push(packet(p, ts(0), true)).unwrap();
    let frame = pull_frame(&mut d);
    // The DRI segment sits after the two DQT segments.
    assert_eq!(&frame.data()[140..146], &[0xff, 0xdd, 0x00, 0x04, 0x00, 0x32]);
    assert_eq!(frame.data().len(), HEADER_LEN + 6 + 2 + 2);
}

#[test]
fn inline_table_used_and_cached() {
    let table: Vec<u8> = (0u8..=255).cycle().skip(1).take(128).collect();
    let mut d = Depacketizer::new();
    d.push(packet(start_payload_inline(1, 200, 2, 2, 0, &table, &[5, 6]), ts(0), true)).unwrap();
    let first = pull_frame(&mut d);
    // The inline table lands in the first DQT segment.
    assert_eq!(&first.data()[7..71], &table[..64]);
    assert_eq!(&first.data()[76..140], &table[64..]);

    // Omitting the table at the same index reuses the cached copy.
    let omitted = start_payload_inline(1, 200, 2, 2, 0, &[], &[5, 6]);
    assert_eq!(omitted.len(), 8 + 4 + 2);
    d.push(packet(omitted, ts(1), true)).unwrap();
    let second = pull_frame(&mut d);
    assert_eq!(first.data(), second.data());
}

#[test]
fn quality_255_never_cached() {
    let table = vec![3u8; 128];
    let mut d = Depacketizer::new();
    d.push(packet(start_payload_inline(1, 255, 2, 2, 0, &table, &[5, 6]), ts(0), true)).unwrap();
    let _ = pull_frame(&mut d);
    // Index 255 must always carry its table: omission is an error even
    // though one was just supplied.
    assert_eq!(
        d.push(packet(start_payload_inline(1, 255, 2, 2, 0, &[], &[5, 6]), ts(1), true)),
        Err(Error::InvalidQuantSpec)
    );
}

#[test]
fn short_packet_rejected() {
    let mut d = Depacketizer::new();
    assert_eq!(
        d.push(packet(vec![0, 0, 0, 0, 1, 50, 2], ts(0), true)),
        Err(Error::InvalidPacket)
    );
}

#[test]
fn orphan_fragment_rejected() {
    let mut d = Depacketizer::new();
    assert_eq!(
        d.push(packet(cont_payload(10, 1, 50, 2, 2, &[1]), ts(0), false)),
        Err(Error::OrphanFragment)
    );
}

#[test]
fn truncated_restart_extension_rejected() {
    let mut d = Depacketizer::new();
    // Type 64 declares the extension but only two of its four bytes follow.
    assert_eq!(
        d.push(packet(vec![0, 0, 0, 0, 64, 50, 2, 2, 0, 50], ts(0), true)),
        Err(Error::InvalidPacket)
    );
}

#[test]
fn truncated_quant_header_rejected() {
    let mut d = Depacketizer::new();
    assert_eq!(
        d.push(packet(vec![0, 0, 0, 0, 1, 200, 2, 2, 0, 0], ts(0), true)),
        Err(Error::InvalidPacket)
    );
}

#[test]
fn overlong_quant_length_rejected() {
    let mut d = Depacketizer::new();
    // Declared table length 200, but only 10 bytes follow.
    let p = start_payload_inline(1, 200, 2, 2, 0, &[0u8; 0], &[0u8; 10]);
    let mut p = p;
    p[11] = 200; // length low byte
    assert_eq!(d.push(packet(p, ts(0), true)), Err(Error::InvalidPacket));
}

#[test]
fn missing_quant_table_rejected() {
    let mut d = Depacketizer::new();
    assert_eq!(
        d.push(packet(start_payload_inline(1, 200, 2, 2, 0, &[], &[1, 2]), ts(0), true)),
        Err(Error::MissingQuantTable)
    );
}

#[test]
fn insufficient_quant_data_rejected() {
    let mut d = Depacketizer::new();
    // 64 inline bytes cannot fill two 8-bit tables.
    assert_eq!(
        d.push(packet(start_payload_inline(1, 200, 2, 2, 0, &[7u8; 64], &[]), ts(0), true)),
        Err(Error::InsufficientQuantData)
    );
}

#[test]
fn error_aborts_frame_attempt() {
    let mut d = Depacketizer::new();
    d.push(packet(start_payload(1, 50, 2, 2, &[1, 2]), ts(0), false)).unwrap();
    // A malformed packet aborts the in-progress frame.
    assert_eq!(d.push(packet(vec![0, 0, 0], ts(0), false)), Err(Error::InvalidPacket));
    // So a further continuation is an orphan.
    assert_eq!(
        d.push(packet(cont_payload(2, 1, 50, 2, 2, &[3]), ts(0), true)),
        Err(Error::OrphanFragment)
    );
}

#[test]
fn marked_start_fragment_without_scan_data_completes() {
    // A start fragment that is also the last fragment completes on its
    // own: the synthesized header plus an appended EOI.
    let mut d = Depacketizer::new();
    d.push(packet(start_payload(1, 50, 2, 2, &[]), ts(0), true)).unwrap();
    let frame = pull_frame(&mut d);
    assert_eq!(frame.data().len(), HEADER_LEN + 2);
    assert_eq!(&frame.data()[HEADER_LEN..], &[0xff, 0xd9]);
}
