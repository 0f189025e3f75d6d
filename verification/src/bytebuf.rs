//! Trusted interface to the `bytes` crate.
//!
//! Fragment payloads and cached quantization tables are held as
//! `bytes::Bytes`: cheaply cloneable, immutable byte buffers. Verus does not
//! read the `bytes` crate, so the type is declared opaque, the sequence of
//! bytes a value holds is named by [`bytes_content`], and each operation the
//! library needs is wrapped in a function whose contract states what the
//! crate's source shows.

use vstd::prelude::*;

verus! {

#[verifier::external_type_specification]
#[verifier::external_body]
pub struct ExBytes(bytes::Bytes);

/// The sequence of bytes a `bytes::Bytes` value holds.
pub uninterp spec fn bytes_content(b: bytes::Bytes) -> Seq<u8>;

/// Relies on `<Bytes as From<Vec<u8>>>::from`: the new buffer holds exactly
/// the vector's bytes.
#[verifier::external_body]
pub fn bytes_from_vec(v: Vec<u8>) -> (b: bytes::Bytes)
    ensures
        bytes_content(b) == v@,
{
    bytes::Bytes::from(v)
}

/// Relies on `<Bytes as Deref>::deref`: a slice of all bytes held.
#[verifier::external_body]
pub fn bytes_as_slice(b: &bytes::Bytes) -> (s: &[u8])
    ensures
        s@ == bytes_content(*b),
{
    b
}

/// Relies on `<Bytes as Clone>::clone`: a new handle to the same bytes.
#[verifier::external_body]
pub fn bytes_clone(b: &bytes::Bytes) -> (c: bytes::Bytes)
    ensures
        bytes_content(c) == bytes_content(*b),
{
    b.clone()
}

/// Relies on `Bytes::slice`: the sub-range `i..j` of the bytes held.
/// `Bytes::slice` panics on an out-of-bounds range, so that is excluded.
#[verifier::external_body]
pub fn bytes_slice(b: &bytes::Bytes, i: usize, j: usize) -> (c: bytes::Bytes)
    requires
        i <= j <= bytes_content(*b).len(),
    ensures
        bytes_content(c) == bytes_content(*b).subrange(i as int, j as int),
{
    b.slice(i..j)
}

} // verus!
