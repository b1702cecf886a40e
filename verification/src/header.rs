//! Command-header finishing.
//!
//! Each application component gets one command header.  Its body is produced
//! by an outside encoder from the parameters in [`HeaderParams`]; this module
//! appends the compatibility filler and zero-pads the result to exactly one
//! [`BLOCK_SIZE`] block, truncating if body and filler together overrun it.

use vstd::prelude::*;

use crate::pad::zero_ext;
use crate::BLOCK_SIZE;

verus! {

/// The cryptographic parameters of one application component's command
/// header: the component's payload key and IV, the platform's boot
/// application key protecting the header, the header-key IV, the padded
/// payload length and the component identifier.
#[derive(Debug, Clone, Copy)]
pub struct HeaderParams {
    pub key: [u8; 16],
    pub iv: [u8; 16],
    pub app_key: [u8; 16],
    pub key_iv: [u8; 16],
    pub len: u32,
    pub cid: u32,
}

/// The finished header block: encoded body, then the filler, the whole
/// truncated or zero-extended to exactly [`BLOCK_SIZE`] bytes.
pub open spec fn finished_header(body: Seq<u8>, filler: Seq<u8>) -> Seq<u8> {
    let joined = body + filler;
    if joined.len() >= BLOCK_SIZE {
        joined.take(BLOCK_SIZE as int)
    } else {
        zero_ext(joined, BLOCK_SIZE as nat)
    }
}

/// Appends the compatibility filler to an encoded header body and pads the
/// result with zeros to exactly one [`BLOCK_SIZE`] block.  Given identical
/// body and filler bytes the result is identical.
pub fn finish_header(body: Vec<u8>, filler: &Vec<u8>) -> (r: Vec<u8>)
    requires
        body@.len() + filler@.len() <= usize::MAX,
    ensures
        r@ == finished_header(body@, filler@),
        r@.len() == BLOCK_SIZE,
{
    let ghost b0 = body@;
    let mut buf = body;
    buf.extend_from_slice(filler.as_slice());
    proof {
        assert(buf@ =~= b0 + filler@);
    }
    let ghost joined = buf@;
    buf.resize(BLOCK_SIZE, 0u8);
    proof {
        assert forall|i: int| 0 <= i < BLOCK_SIZE implies buf@[i] == finished_header(
            b0,
            filler@,
        )[i] by {
            if joined.len() >= BLOCK_SIZE {
                assert(buf@[i] == joined.subrange(0, BLOCK_SIZE as int)[i]);
            } else {
                if i < joined.len() {
                    assert(buf@.subrange(0, joined.len() as int)[i] == joined[i]);
                }
            }
        }
        assert(buf@ =~= finished_header(b0, filler@));
    }
    buf
}

} // verus!
