//! JPEG marker-segment synthesis (RFC 2435, Appendix B).
//!
//! A frame's header is built byte-exactly: SOI, two DQT segments, an
//! optional DRI segment, SOF0, the four fixed canonical DHT segments, and
//! SOS. Each segment has a spec function giving its exact bytes, and each
//! writer appends exactly those bytes.

use vstd::prelude::*;
use crate::types::Error;

verus! {

pub const LUM_DC_CODELENS: [u8; 16] = [0, 1, 5, 1, 1, 1, 1, 1, 1, 0, 0, 0, 0, 0, 0, 0];

pub const LUM_DC_SYMBOLS: [u8; 12] = [0, 1, 2, 3, 4, 5, 6, 7, 8, 9, 10, 11];

pub const LUM_AC_CODELENS: [u8; 16] = [0, 2, 1, 3, 3, 2, 4, 3, 5, 5, 4, 4, 0, 0, 1, 0x7d];

pub const LUM_AC_SYMBOLS: [u8; 162] = [
    0x01, 0x02, 0x03, 0x00, 0x04, 0x11, 0x05, 0x12, 0x21, 0x31, 0x41, 0x06, 0x13, 0x51, 0x61,
    0x07, 0x22, 0x71, 0x14, 0x32, 0x81, 0x91, 0xa1, 0x08, 0x23, 0x42, 0xb1, 0xc1, 0x15, 0x52,
    0xd1, 0xf0, 0x24, 0x33, 0x62, 0x72, 0x82, 0x09, 0x0a, 0x16, 0x17, 0x18, 0x19, 0x1a, 0x25,
    0x26, 0x27, 0x28, 0x29, 0x2a, 0x34, 0x35, 0x36, 0x37, 0x38, 0x39, 0x3a, 0x43, 0x44, 0x45,
    0x46, 0x47, 0x48, 0x49, 0x4a, 0x53, 0x54, 0x55, 0x56, 0x57, 0x58, 0x59, 0x5a, 0x63, 0x64,
    0x65, 0x66, 0x67, 0x68, 0x69, 0x6a, 0x73, 0x74, 0x75, 0x76, 0x77, 0x78, 0x79, 0x7a, 0x83,
    0x84, 0x85, 0x86, 0x87, 0x88, 0x89, 0x8a, 0x92, 0x93, 0x94, 0x95, 0x96, 0x97, 0x98, 0x99,
    0x9a, 0xa2, 0xa3, 0xa4, 0xa5, 0xa6, 0xa7, 0xa8, 0xa9, 0xaa, 0xb2, 0xb3, 0xb4, 0xb5, 0xb6,
    0xb7, 0xb8, 0xb9, 0xba, 0xc2, 0xc3, 0xc4, 0xc5, 0xc6, 0xc7, 0xc8, 0xc9, 0xca, 0xd2, 0xd3,
    0xd4, 0xd5, 0xd6, 0xd7, 0xd8, 0xd9, 0xda, 0xe1, 0xe2, 0xe3, 0xe4, 0xe5, 0xe6, 0xe7, 0xe8,
    0xe9, 0xea, 0xf1, 0xf2, 0xf3, 0xf4, 0xf5, 0xf6, 0xf7, 0xf8, 0xf9, 0xfa,
];

pub const CHM_DC_CODELENS: [u8; 16] = [0, 3, 1, 1, 1, 1, 1, 1, 1, 1, 1, 0, 0, 0, 0, 0];

pub const CHM_DC_SYMBOLS: [u8; 12] = [0, 1, 2, 3, 4, 5, 6, 7, 8, 9, 10, 11];

pub const CHM_AC_CODELENS: [u8; 16] = [0, 2, 1, 2, 4, 4, 3, 4, 7, 5, 4, 4, 0, 1, 2, 0x77];

pub const CHM_AC_SYMBOLS: [u8; 162] = [
    0x00, 0x01, 0x02, 0x03, 0x11, 0x04, 0x05, 0x21, 0x31, 0x06, 0x12, 0x41, 0x51, 0x07, 0x61,
    0x71, 0x13, 0x22, 0x32, 0x81, 0x08, 0x14, 0x42, 0x91, 0xa1, 0xb1, 0xc1, 0x09, 0x23, 0x33,
    0x52, 0xf0, 0x15, 0x62, 0x72, 0xd1, 0x0a, 0x16, 0x24, 0x34, 0xe1, 0x25, 0xf1, 0x17, 0x18,
    0x19, 0x1a, 0x26, 0x27, 0x28, 0x29, 0x2a, 0x35, 0x36, 0x37, 0x38, 0x39, 0x3a, 0x43, 0x44,
    0x45, 0x46, 0x47, 0x48, 0x49, 0x4a, 0x53, 0x54, 0x55, 0x56, 0x57, 0x58, 0x59, 0x5a, 0x63,
    0x64, 0x65, 0x66, 0x67, 0x68, 0x69, 0x6a, 0x73, 0x74, 0x75, 0x76, 0x77, 0x78, 0x79, 0x7a,
    0x82, 0x83, 0x84, 0x85, 0x86, 0x87, 0x88, 0x89, 0x8a, 0x92, 0x93, 0x94, 0x95, 0x96, 0x97,
    0x98, 0x99, 0x9a, 0xa2, 0xa3, 0xa4, 0xa5, 0xa6, 0xa7, 0xa8, 0xa9, 0xaa, 0xb2, 0xb3, 0xb4,
    0xb5, 0xb6, 0xb7, 0xb8, 0xb9, 0xba, 0xc2, 0xc3, 0xc4, 0xc5, 0xc6, 0xc7, 0xc8, 0xc9, 0xca,
    0xd2, 0xd3, 0xd4, 0xd5, 0xd6, 0xd7, 0xd8, 0xd9, 0xda, 0xe2, 0xe3, 0xe4, 0xe5, 0xe6, 0xe7,
    0xe8, 0xe9, 0xea, 0xf2, 0xf3, 0xf4, 0xf5, 0xf6, 0xf7, 0xf8, 0xf9, 0xfa,
];

/// The DQT segment carrying quantization table `table_no` with payload `qt`.
pub open spec fn dqt_segment(qt: Seq<u8>, table_no: u8) -> Seq<u8> {
    seq![0xffu8, 0xdbu8, 0u8, (qt.len() + 3) as u8, table_no] + qt
}

/// The DHT segment carrying one Huffman table of class `table_class`
/// (0 = DC, 1 = AC), slot `table_no`.
pub open spec fn dht_segment(codelens: Seq<u8>, symbols: Seq<u8>, table_no: u8, table_class: u8) -> Seq<u8> {
    seq![
        0xffu8,
        0xc4u8,
        0u8,
        (3 + codelens.len() + symbols.len()) as u8,
        ((table_class << 4) | table_no),
    ] + codelens + symbols
}

/// The DRI segment declaring restart interval `dri`.
pub open spec fn dri_segment(dri: u16) -> Seq<u8> {
    seq![0xffu8, 0xddu8, 0u8, 4u8, ((dri >> 8) as u8), (dri as u8)]
}

/// The SOF0 segment: baseline sequential DCT, 8-bit samples, three
/// components. The low 6 bits of `image_type` select the luma subsampling:
/// zero means 4:2:2, nonzero means 4:2:0.
pub open spec fn sof_segment(image_type: u8, width: u16, height: u16) -> Seq<u8> {
    seq![
        0xffu8,
        0xc0u8,
        0u8,
        17u8,
        8u8,
        ((height >> 8) as u8),
        (height as u8),
        ((width >> 8) as u8),
        (width as u8),
        3u8,
        0u8,
        (if (image_type & 0x3f) == 0 { 0x21u8 } else { 0x22u8 }),
        0u8,
        1u8,
        0x11u8,
        1u8,
        2u8,
        0x11u8,
        1u8,
    ]
}

/// The SOS segment: all three components, Huffman tables 0 (luma) and
/// 1 (chroma), spectral range 0..63, no successive approximation.
pub open spec fn sos_segment() -> Seq<u8> {
    seq![
        0xffu8,
        0xdau8,
        0u8,
        12u8,
        3u8,
        0u8,
        0u8,
        1u8,
        0x11u8,
        2u8,
        0x11u8,
        0u8,
        63u8,
        0u8,
    ]
}

/// Bytes taken from the quantization payload for table 0: 128 when
/// precision bit 0 declares 16-bit coefficients, else 64.
pub open spec fn table0_len(precision: u8) -> int {
    if precision & 1 != 0 {
        128
    } else {
        64
    }
}

/// Bytes taken from the quantization payload for table 1: 128 when
/// precision bit 1 declares 16-bit coefficients, else 64.
pub open spec fn table1_len(precision: u8) -> int {
    if precision & 2 != 0 {
        128
    } else {
        64
    }
}

/// Whether a quantization payload of `qt_len` bytes suffices for the byte
/// counts implied by `precision`.
pub open spec fn headers_ok(qt_len: int, precision: u8) -> bool {
    qt_len >= table0_len(precision) + table1_len(precision)
}

/// The complete synthesized header: SOI, DQT for tables 0 and 1, DRI when a
/// restart interval is set, SOF0, the four canonical DHT segments, SOS.
pub open spec fn headers_bytes(
    image_type: u8,
    width: u16,
    height: u16,
    qt: Seq<u8>,
    precision: u8,
    dri: u16,
) -> Seq<u8> {
    let s0 = table0_len(precision);
    let s1 = table1_len(precision);
    seq![0xffu8, 0xd8u8] + dqt_segment(qt.subrange(0, s0), 0) + dqt_segment(
        qt.subrange(s0, s0 + s1),
        1,
    ) + (if dri != 0 {
        dri_segment(dri)
    } else {
        Seq::<u8>::empty()
    }) + sof_segment(image_type, width, height) + dht_segment(
        LUM_DC_CODELENS@,
        LUM_DC_SYMBOLS@,
        0,
        0,
    ) + dht_segment(LUM_AC_CODELENS@, LUM_AC_SYMBOLS@, 0, 1) + dht_segment(
        CHM_DC_CODELENS@,
        CHM_DC_SYMBOLS@,
        1,
        0,
    ) + dht_segment(CHM_AC_CODELENS@, CHM_AC_SYMBOLS@, 1, 1) + sos_segment()
}

/// Append every byte of `s` to `p`.
pub(crate) fn append_slice(p: &mut Vec<u8>, s: &[u8])
    ensures
        final(p)@ == old(p)@ + s@,
{
    p.extend_from_slice(s);
    proof {
        assert forall|i: int| 0 <= i < p@.len() implies p@[i] == (old(p)@ + s@)[i] by {
            if i >= old(p)@.len() {
                assert(cloned::<u8>(s@[i - old(p)@.len()], p@[i]));
            }
        }
        assert(p@ =~= old(p)@ + s@);
    }
}

/// Append the DQT segment for table `table_no` with payload `qt`.
pub fn make_quant_header(p: &mut Vec<u8>, qt: &[u8], table_no: u8)
    requires
        qt@.len() < 252,
    ensures
        final(p)@ == old(p)@ + dqt_segment(qt@, table_no),
{
    p.push(0xff);
    p.push(0xdb);  // DQT
    p.push(0);  // length msb
    p.push(qt.len() as u8 + 3);  // length lsb
    p.push(table_no);
    append_slice(p, qt);
    proof {
        assert(p@ =~= old(p)@ + dqt_segment(qt@, table_no));
    }
}

/// Append the DHT segment for one Huffman table.
pub fn make_huffman_header(
    p: &mut Vec<u8>,
    codelens: &[u8],
    symbols: &[u8],
    table_no: u8,
    table_class: u8,
)
    requires
        3 + codelens@.len() + symbols@.len() <= 255,
    ensures
        final(p)@ == old(p)@ + dht_segment(codelens@, symbols@, table_no, table_class),
{
    p.push(0xff);
    p.push(0xc4);  // DHT
    p.push(0);  // length msb
    p.push((3 + codelens.len() + symbols.len()) as u8);  // length lsb
    p.push((table_class << 4) | table_no);
    append_slice(p, codelens);
    append_slice(p, symbols);
    proof {
        assert(p@ =~= old(p)@ + dht_segment(codelens@, symbols@, table_no, table_class));
    }
}

/// Append the DRI segment declaring restart interval `dri`.
pub fn make_dri_header(p: &mut Vec<u8>, dri: u16)
    ensures
        final(p)@ == old(p)@ + dri_segment(dri),
{
    p.push(0xff);
    p.push(0xdd);  // DRI
    p.push(0x0);  // length msb
    p.push(4);  // length lsb
    p.push((dri >> 8) as u8);  // dri msb
    p.push(dri as u8);  // dri lsb
    proof {
        assert(p@ =~= old(p)@ + dri_segment(dri));
    }
}

/// Append the SOF0 segment.
fn push_sof(p: &mut Vec<u8>, image_type: u8, width: u16, height: u16)
    ensures
        final(p)@ == old(p)@ + sof_segment(image_type, width, height),
{
    p.push(0xff);
    p.push(0xc0);  // SOF
    p.push(0);  // length msb
    p.push(17);  // length lsb
    p.push(8);  // 8-bit precision
    p.push((height >> 8) as u8);  // height msb
    p.push(height as u8);  // height lsb
    p.push((width >> 8) as u8);  // width msb
    p.push(width as u8);  // width lsb
    p.push(3);  // number of components

    p.push(0);  // comp 0
    if (image_type & 0x3f) == 0 {
        p.push(0x21);  // hsamp = 2, vsamp = 1
    } else {
        p.push(0x22);  // hsamp = 2, vsamp = 2
    }
    p.push(0);  // quant table 0

    p.push(1);  // comp 1
    p.push(0x11);  // hsamp = 1, vsamp = 1
    p.push(1);  // quant table 1

    p.push(2);  // comp 2
    p.push(0x11);  // hsamp = 1, vsamp = 1
    p.push(1);  // quant table 1
    proof {
        assert(p@ =~= old(p)@ + sof_segment(image_type, width, height));
    }
}

/// Append the SOS segment.
fn push_sos(p: &mut Vec<u8>)
    ensures
        final(p)@ == old(p)@ + sos_segment(),
{
    p.push(0xff);
    p.push(0xda);  // SOS
    p.push(0);  // length msb
    p.push(12);  // length lsb
    p.push(3);  // 3 components

    p.push(0);  // comp 0
    p.push(0);  // huffman table 0

    p.push(1);  // comp 1
    p.push(0x11);  // huffman table 1

    p.push(2);  // comp 2
    p.push(0x11);  // huffman table 1

    p.push(0);  // first DCT coeff
    p.push(63);  // last DCT coeff
    p.push(0);  // successive approx.
    proof {
        assert(p@ =~= old(p)@ + sos_segment());
    }
}

/// Append the complete JPEG header for one frame to `p`.
///
/// When `qtable` holds at least the bytes `precision` implies for both
/// tables, exactly [`headers_bytes`] is appended and `Ok` returned; when it
/// is too short, `p` is left unchanged and `InsufficientQuantData` returned.
#[verifier::rlimit(30)]
pub fn make_headers(
    p: &mut Vec<u8>,
    image_type: u8,
    width: u16,
    height: u16,
    qtable: &[u8],
    precision: u8,
    dri: u16,
) -> (r: Result<(), Error>)
    ensures
        headers_ok(qtable@.len() as int, precision) ==> r is Ok && final(p)@ == old(p)@
            + headers_bytes(image_type, width, height, qtable@, precision, dri),
        !headers_ok(qtable@.len() as int, precision) ==> r == Err::<(), Error>(
            Error::InsufficientQuantData,
        ) && final(p)@ == old(p)@,
{
    let size0: usize = if precision & 1 != 0 {
        128
    } else {
        64
    };
    let size1: usize = if precision & 2 != 0 {
        128
    } else {
        64
    };
    if qtable.len() < size0 || qtable.len() - size0 < size1 {
        return Err(Error::InsufficientQuantData);
    }

    p.push(0xff);
    p.push(0xd8);  // SOI

    make_quant_header(p, vstd::slice::slice_subrange(qtable, 0, size0), 0);
    make_quant_header(p, vstd::slice::slice_subrange(qtable, size0, size0 + size1), 1);

    if dri != 0 {
        make_dri_header(p, dri);
    }

    push_sof(p, image_type, width, height);

    make_huffman_header(p, LUM_DC_CODELENS.as_slice(), LUM_DC_SYMBOLS.as_slice(), 0, 0);
    make_huffman_header(p, LUM_AC_CODELENS.as_slice(), LUM_AC_SYMBOLS.as_slice(), 0, 1);
    make_huffman_header(p, CHM_DC_CODELENS.as_slice(), CHM_DC_SYMBOLS.as_slice(), 1, 0);
    make_huffman_header(p, CHM_AC_CODELENS.as_slice(), CHM_AC_SYMBOLS.as_slice(), 1, 1);

    push_sos(p);

    proof {
        assert(p@ =~= old(p)@ + headers_bytes(image_type, width, height, qtable@, precision, dri));
    }
    Ok(())
}

} // verus!
