//! DEFLATE compression of the optional SA2 payload.
//!
//! The encoder is an outside primitive; its output is named by an
//! uninterpreted function of the input bytes, and inflating that output
//! restores the input (the round-trip law).

use std::io::Write;

use vstd::prelude::*;

verus! {

/// The raw-DEFLATE encoding of `data` at the fastest compression level: a
/// function of the input bytes alone.
pub uninterp spec fn deflate_fast(data: Seq<u8>) -> Seq<u8>;

/// The raw-DEFLATE decoding of `data`: a function of the input bytes alone.
pub uninterp spec fn inflate(data: Seq<u8>) -> Seq<u8>;

/// Relies on flate2's DeflateEncoder at Compression::fast() writing into a
/// `Vec` sink, which cannot fail: the result depends on the input bytes
/// alone, and decoding it with flate2's DeflateDecoder restores the input.
#[verifier::external_body]
pub fn compress_fast(data: &Vec<u8>) -> (r: Vec<u8>)
    ensures
        r@ == deflate_fast(data@),
        inflate(r@) == data@,
{
    let mut encoder = flate2::write::DeflateEncoder::new(Vec::new(), flate2::Compression::fast());
    encoder.write_all(data).expect("compression failed");
    encoder.finish().expect("compression failed")
}

} // verus!
