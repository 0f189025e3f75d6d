//! Quantization-table generation for RTP/JPEG (RFC 2435, Appendix A).
//!
//! A quality factor in `[1, 99]` is turned into a 128-byte table: 64 luma
//! coefficients followed by 64 chroma coefficients, both in zigzag order,
//! scaled from the base tables of the JPEG specification.

use vstd::prelude::*;

verus! {

/// Zigzag scan order: position within the 8x8 block of each coefficient,
/// in the order coefficients are stored in a quantization table.
pub const ZIGZAG: [usize; 64] = [
    0, 1, 8, 16, 9, 2, 3, 10, 17, 24, 32, 25, 18, 11, 4, 5, 12, 19, 26, 33, 40, 48, 41, 34, 27,
    20, 13, 6, 7, 14, 21, 28, 35, 42, 49, 56, 57, 50, 43, 36, 29, 22, 15, 23, 30, 37, 44, 51, 58,
    59, 52, 45, 38, 31, 39, 46, 53, 60, 61, 54, 47, 55, 62, 63,
];

/// Base luma quantizer (Table K.1 of the JPEG specification), row-major.
pub const JPEG_LUMA_QUANTIZER: [u32; 64] = [
    16, 11, 10, 16, 24, 40, 51, 61, 12, 12, 14, 19, 26, 58, 60, 55, 14, 13, 16, 24, 40, 57, 69,
    56, 14, 17, 22, 29, 51, 87, 80, 62, 18, 22, 37, 56, 68, 109, 103, 77, 24, 35, 55, 64, 81, 104,
    113, 92, 49, 64, 78, 87, 103, 121, 120, 101, 72, 92, 95, 98, 112, 100, 103, 99,
];

/// Base chroma quantizer (Table K.2 of the JPEG specification), row-major.
pub const JPEG_CHROMA_QUANTIZER: [u32; 64] = [
    17, 18, 24, 47, 99, 99, 99, 99, 18, 21, 26, 66, 99, 99, 99, 99, 24, 26, 56, 99, 99, 99, 99,
    99, 47, 66, 99, 99, 99, 99, 99, 99, 99, 99, 99, 99, 99, 99, 99, 99, 99, 99, 99, 99, 99, 99,
    99, 99, 99, 99, 99, 99, 99, 99, 99, 99, 99, 99, 99, 99, 99, 99, 99, 99,
];

/// The scale applied to the base tables for quality factor `q`,
/// after clamping `q` to `[1, 99]`.
pub open spec fn quality_scale(q: int) -> int {
    let f = if q < 1 {
        1
    } else if q > 99 {
        99
    } else {
        q
    };
    if f < 50 {
        5000int / f
    } else {
        200 - f * 2
    }
}

/// One scaled coefficient: `(base * scale + 50) / 100`, clamped to `[1, 255]`.
pub open spec fn scaled_coeff(base: int, scale: int) -> u8 {
    let v = (base * scale + 50) / 100;
    if v < 1 {
        1
    } else if v > 255 {
        255
    } else {
        v as u8
    }
}

/// Coefficient `i` (in zigzag order) of the luma table for quality `q`.
pub open spec fn luma_coeff(q: int, i: int) -> u8 {
    scaled_coeff(JPEG_LUMA_QUANTIZER[ZIGZAG[i] as int] as int, quality_scale(q))
}

/// Coefficient `i` (in zigzag order) of the chroma table for quality `q`.
pub open spec fn chroma_coeff(q: int, i: int) -> u8 {
    scaled_coeff(JPEG_CHROMA_QUANTIZER[ZIGZAG[i] as int] as int, quality_scale(q))
}

/// The full 128-byte table for quality `q`: 64 luma bytes, then 64 chroma bytes.
pub open spec fn quant_tables(q: int) -> Seq<u8> {
    Seq::new(64, |i: int| luma_coeff(q, i)) + Seq::new(64, |i: int| chroma_coeff(q, i))
}

/// Every zigzag position is a valid index into the 8x8 base tables.
proof fn zigzag_in_range()
    ensures
        forall|i: int| 0 <= i < 64 ==> #[trigger] ZIGZAG[i] < 64,
{
}

/// Calculate luma and chroma quantizer tables based on the given quality factor.
///
/// The result is exactly `quant_tables(q)`: deterministic, 128 bytes, each
/// coefficient scaled by the classic formula and clamped into `[1, 255]`.
pub fn make_tables(q: i32) -> (t: Vec<u8>)
    ensures
        t@ == quant_tables(q as int),
{
    let factor: u32 = if q < 1 {
        1
    } else if q > 99 {
        99
    } else {
        q as u32
    };
    let scale: u32 = if factor < 50 {
        5000 / factor
    } else {
        200 - factor * 2
    };
    proof {
        zigzag_in_range();
    }

    let mut t: Vec<u8> = Vec::new();
    let mut i: usize = 0;
    while i < 64
        invariant
            i <= 64,
            t@.len() == i,
            scale == quality_scale(q as int),
            scale <= 5000,
            forall|j: int| 0 <= j < 64 ==> #[trigger] ZIGZAG[j] < 64,
            forall|j: int| 0 <= j < i ==> t@[j] == luma_coeff(q as int, j),
        decreases 64 - i,
    {
        let zz = ZIGZAG[i];
        let base: u64 = JPEG_LUMA_QUANTIZER[zz] as u64;
        assert(base * (scale as u64) <= 0xFFFF_FFFFu64 * 5000) by (nonlinear_arith)
            requires
                base <= 0xFFFF_FFFFu64,
                scale <= 5000,
        ;
        let lq: u64 = base * (scale as u64) + 50;
        let lq: u64 = lq / 100;
        let v: u8 = if lq < 1 {
            1
        } else if lq > 255 {
            255
        } else {
            lq as u8
        };
        assert(v == luma_coeff(q as int, i as int));
        t.push(v);
        i += 1;
    }

    let mut i: usize = 0;
    while i < 64
        invariant
            i <= 64,
            t@.len() == 64 + i,
            scale == quality_scale(q as int),
            scale <= 5000,
            forall|j: int| 0 <= j < 64 ==> #[trigger] ZIGZAG[j] < 64,
            forall|j: int| 0 <= j < 64 ==> t@[j] == luma_coeff(q as int, j),
            forall|j: int| 0 <= j < i ==> t@[64 + j] == chroma_coeff(q as int, j),
        decreases 64 - i,
    {
        let zz = ZIGZAG[i];
        let base: u64 = JPEG_CHROMA_QUANTIZER[zz] as u64;
        assert(base * (scale as u64) <= 0xFFFF_FFFFu64 * 5000) by (nonlinear_arith)
            requires
                base <= 0xFFFF_FFFFu64,
                scale <= 5000,
        ;
        let cq: u64 = base * (scale as u64) + 50;
        let cq: u64 = cq / 100;
        let v: u8 = if cq < 1 {
            1
        } else if cq > 255 {
            255
        } else {
            cq as u8
        };
        assert(v == chroma_coeff(q as int, i as int));
        t.push(v);
        i += 1;
    }

    proof {
        assert(t@ =~= quant_tables(q as int));
    }
    t
}

/// For every quality factor, the generated table has exactly 128 bytes and
/// every coefficient lies in `[1, 255]`.
pub proof fn lemma_quant_tables_bounded(q: int)
    ensures
        quant_tables(q).len() == 128,
        forall|i: int| 0 <= i < 128 ==> 1 <= #[trigger] quant_tables(q)[i] <= 255,
{
}

} // verus!
