//! Padding policy.
//!
//! The SK payload is zero-extended to exactly [`SK_SIZE`] bytes and must not
//! exceed that size.  Application payloads are zero-extended to the next
//! multiple of [`BLOCK_SIZE`] and their padded length must fit the 32-bit
//! length field of the command header.

use vstd::prelude::*;

use crate::{MakeSKSAError, SKSAComponent, AES_BLOCK_SIZE, BLOCK_SIZE, SK_SIZE};

verus! {

/// `s` zero-extended to length `n`.
pub open spec fn zero_ext(s: Seq<u8>, n: nat) -> Seq<u8>
    recommends
        s.len() <= n,
{
    s + Seq::new((n - s.len()) as nat, |i: int| 0u8)
}

/// The smallest multiple of [`BLOCK_SIZE`] that is at least `n`.
pub open spec fn block_round_up(n: nat) -> nat {
    if n % (BLOCK_SIZE as nat) == 0 {
        n
    } else {
        (n + BLOCK_SIZE - n % (BLOCK_SIZE as nat)) as nat
    }
}

/// Block rounding rounds up, lands on a block boundary, and adds less than
/// one whole block.
pub proof fn lemma_block_round_up(n: nat)
    ensures
        n <= block_round_up(n),
        block_round_up(n) % (BLOCK_SIZE as nat) == 0,
        block_round_up(n) < n + BLOCK_SIZE,
{
    let b = BLOCK_SIZE as nat;
    let r = n % b;
    assert(0 <= r < b) by (nonlinear_arith)
        requires
            b > 0,
            r == n % b,
    ;
    if r != 0 {
        assert(((n + b - r) as int) % (b as int) == 0) by (nonlinear_arith)
            requires
                b > 0,
                r == n % b,
                r != 0,
        ;
    }
}

/// Block rounding is least: no smaller multiple of [`BLOCK_SIZE`] reaches `n`.
pub proof fn lemma_block_round_up_least(n: nat, m: nat)
    requires
        m % (BLOCK_SIZE as nat) == 0,
        n <= m,
    ensures
        block_round_up(n) <= m,
{
    let b = BLOCK_SIZE as nat;
    let r = n % b;
    if r != 0 {
        assert(n + b - r <= m) by (nonlinear_arith)
            requires
                b > 0,
                r == n % b,
                r != 0,
                m % b == 0,
                n <= m,
        ;
    }
}

/// Validates and pads the SK payload: a payload longer than [`SK_SIZE`] is
/// rejected, a shorter one is zero-extended to exactly [`SK_SIZE`] bytes.
/// The original bytes are kept as a prefix and are never truncated.
pub fn pad_sk(sk: Vec<u8>) -> (r: Result<Vec<u8>, MakeSKSAError>)
    ensures
        sk@.len() > SK_SIZE ==> (r matches Err(e) && e == MakeSKSAError::ComponentTooLong(
            SKSAComponent::Sk,
            sk@.len() as usize,
            SK_SIZE,
        )),
        sk@.len() <= SK_SIZE ==> (r matches Ok(v) && v@ == zero_ext(sk@, SK_SIZE as nat)
            && v@.len() == SK_SIZE && v@.subrange(0, sk@.len() as int) == sk@ && (forall|i: int|
            sk@.len() <= i < SK_SIZE ==> v@[i] == 0u8)),
{
    if sk.len() > SK_SIZE {
        return Err(MakeSKSAError::ComponentTooLong(SKSAComponent::Sk, sk.len(), SK_SIZE));
    }
    let ghost orig = sk@;
    let mut sk = sk;
    sk.resize(SK_SIZE, 0u8);
    proof {
        assert forall|i: int| 0 <= i < SK_SIZE implies sk@[i] == zero_ext(orig, SK_SIZE as nat)[i]
        by {
            if i < orig.len() {
                assert(sk@.subrange(0, orig.len() as int)[i] == orig[i]);
            }
        }
        assert(sk@ =~= zero_ext(orig, SK_SIZE as nat));
    }
    Ok(sk)
}

/// A block-aligned length is also aligned to the AES block size.
pub proof fn lemma_aes_block_aligned(n: nat)
    requires
        n % (BLOCK_SIZE as nat) == 0,
    ensures
        n % (AES_BLOCK_SIZE as nat) == 0,
{
    assert(n % (AES_BLOCK_SIZE as nat) == 0) by (nonlinear_arith)
        requires
            n % 16384 == 0,
            BLOCK_SIZE == 16384,
            AES_BLOCK_SIZE == 16,
    ;
}

/// Validates and pads an application payload (SA1, or SA2 after compression):
/// the payload is zero-extended to the next multiple of [`BLOCK_SIZE`]; if
/// that padded length does not fit the command header's 32-bit length field,
/// the payload is rejected with its role and actual length.
pub fn check_and_pad_sa(data: Vec<u8>, role: SKSAComponent) -> (r: Result<
    Vec<u8>,
    MakeSKSAError,
>)
    requires
        role is Sa1 || role is Sa2,
    ensures
        block_round_up(data@.len()) > u32::MAX ==> (r matches Err(e) && e
            == MakeSKSAError::ComponentTooLong(
            role,
            data@.len() as usize,
            u32::MAX as usize,
        )),
        block_round_up(data@.len()) <= u32::MAX ==> (r matches Ok(v) && v@ == zero_ext(
            data@,
            block_round_up(data@.len()),
        ) && v@.len() == block_round_up(data@.len()) && v@.len() % (BLOCK_SIZE as nat) == 0
            && data@.len()
            <= v@.len() < data@.len() + BLOCK_SIZE && v@.subrange(0, data@.len() as int) == data@
            && (forall|i: int| data@.len() <= i < v@.len() ==> v@[i] == 0u8)),
{
    proof {
        lemma_block_round_up(data@.len());
    }
    let len = data.len();
    if len > u32::MAX as usize {
        return Err(MakeSKSAError::ComponentTooLong(role, len, u32::MAX as usize));
    }
    let rem = len % BLOCK_SIZE;
    let padded64: u64 = if rem == 0 {
        len as u64
    } else {
        (len as u64 - rem as u64) + BLOCK_SIZE as u64
    };
    assert(padded64 == block_round_up(data@.len()));
    if padded64 > u32::MAX as u64 {
        return Err(MakeSKSAError::ComponentTooLong(role, len, u32::MAX as usize));
    }
    let padded = padded64 as usize;
    let ghost orig = data@;
    let mut data = data;
    data.resize(padded, 0u8);
    proof {
        assert forall|i: int| 0 <= i < padded implies data@[i] == zero_ext(
            orig,
            block_round_up(orig.len()),
        )[i] by {
            if i < orig.len() {
                assert(data@.subrange(0, orig.len() as int)[i] == orig[i]);
            }
        }
        assert(data@ =~= zero_ext(orig, block_round_up(orig.len())));
    }
    Ok(data)
}

} // verus!
