//! AES-CBC encryption of padded components.
//!
//! The cipher itself is an outside primitive; its output is named by an
//! uninterpreted function of the plaintext, key and IV, which is all the
//! pipeline relies on.

use vstd::prelude::*;

use crate::AES_BLOCK_SIZE;

verus! {

/// The AES-CBC ciphertext of `data` under `key` and `iv`: a function of the
/// three arguments alone.
pub uninterp spec fn aes_cbc_enc(data: Seq<u8>, key: Seq<u8>, iv: Seq<u8>) -> Seq<u8>;

/// Relies on soft_aes::aes::aes_enc_cbc with padding `None`: for a 16-byte
/// key and an input whose length is a multiple of the AES block size it
/// returns a ciphertext of the same length, a function of the plaintext, key
/// and IV alone, and never fails.
#[verifier::external_body]
pub fn encrypt_cbc(data: &Vec<u8>, key: &[u8; 16], iv: &[u8; 16]) -> (r: Vec<u8>)
    requires
        data@.len() % AES_BLOCK_SIZE as nat == 0,
    ensures
        r@ == aes_cbc_enc(data@, key@, iv@),
        r@.len() == data@.len(),
{
    soft_aes::aes::aes_enc_cbc(data, key, iv, None).expect("encryption failed")
}

} // verus!
