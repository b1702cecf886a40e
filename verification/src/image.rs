//! The image-assembly pipeline.
//!
//! [`plan_build`] validates, compresses, pads and encrypts the three
//! components and fixes each application component's header parameters.  The
//! command-header bodies are encoded outside; [`assemble_image`] then
//! finishes the headers and concatenates the sections in their fixed order:
//! encrypted SK, SA1 header, encrypted SA1, and, when SA2 is present, SA2
//! header and encrypted SA2.

use vstd::prelude::*;

use crate::compress::{compress_fast, deflate_fast};
use crate::crypto::{aes_cbc_enc, encrypt_cbc};
use crate::header::{finish_header, finished_header, HeaderParams};
use crate::pad::{block_round_up, check_and_pad_sa, pad_sk, zero_ext};
use crate::{MakeSKSAError, SKSAComponent, BLOCK_SIZE, SK_SIZE};

verus! {

/// An application payload zero-extended to the next block boundary.
pub open spec fn padded_sa(data: Seq<u8>) -> Seq<u8> {
    zero_ext(data, block_round_up(data.len()))
}

/// The payload's padded length fits the header's 32-bit length field.
pub open spec fn sa_fits(data: Seq<u8>) -> bool {
    block_round_up(data.len()) <= u32::MAX
}

/// The encrypted SK section: the payload zero-extended to [`SK_SIZE`], under
/// the ROM-derived key and IV.
pub open spec fn enc_sk_of(sk: Seq<u8>, key: Seq<u8>, iv: Seq<u8>) -> Seq<u8> {
    aes_cbc_enc(zero_ext(sk, SK_SIZE as nat), key, iv)
}

/// An encrypted application section: the payload block-padded, under its own
/// key and IV.
pub open spec fn enc_sa_of(data: Seq<u8>, key: Seq<u8>, iv: Seq<u8>) -> Seq<u8> {
    aes_cbc_enc(padded_sa(data), key, iv)
}

/// Every input of one build: the component payloads, the ROM-derived SK key
/// and IV, the platform's boot application key, and each application
/// component's key material and identifier.
pub struct BuildInputs {
    pub sk: Vec<u8>,
    pub sk_key: [u8; 16],
    pub sk_iv: [u8; 16],
    pub app_key: [u8; 16],
    pub sa1: Vec<u8>,
    pub sa1_cid: u32,
    pub sa1_key: [u8; 16],
    pub sa1_iv: [u8; 16],
    pub sa1_key_iv: [u8; 16],
    pub sa2: Option<Vec<u8>>,
    pub sa2_cid: Option<u32>,
    pub sa2_key: Option<[u8; 16]>,
    pub sa2_iv: Option<[u8; 16]>,
    pub sa2_key_iv: Option<[u8; 16]>,
}

impl BuildInputs {
    /// When SA2 is present, so are its identifier and key material.
    pub open spec fn wf(&self) -> bool {
        self.sa2 is Some ==> (self.sa2_cid is Some && self.sa2_key is Some && self.sa2_iv is Some
            && self.sa2_key_iv is Some)
    }
}

/// The prepared sections of one build: each component encrypted, and the
/// header parameters the outside encoder needs for each application
/// component.
#[derive(Debug)]
pub struct BuildPlan {
    pub enc_sk: Vec<u8>,
    pub sa1_header: HeaderParams,
    pub enc_sa1: Vec<u8>,
    pub sa2_header: Option<HeaderParams>,
    pub enc_sa2: Option<Vec<u8>>,
}

/// The SK and SA1 parts of `p` are what one build of `inp` yields.
pub open spec fn plan_base_ok(p: BuildPlan, inp: BuildInputs) -> bool {
    &&& p.enc_sk@ == enc_sk_of(inp.sk@, inp.sk_key@, inp.sk_iv@)
    &&& p.enc_sk@.len() == SK_SIZE
    &&& p.enc_sa1@ == enc_sa_of(inp.sa1@, inp.sa1_key@, inp.sa1_iv@)
    &&& p.enc_sa1@.len() == block_round_up(inp.sa1@.len())
    &&& p.sa1_header == (HeaderParams {
        key: inp.sa1_key,
        iv: inp.sa1_iv,
        app_key: inp.app_key,
        key_iv: inp.sa1_key_iv,
        len: block_round_up(inp.sa1@.len()) as u32,
        cid: inp.sa1_cid,
    })
}

/// The SA2 parts of `p` are what one build of `inp` yields for the
/// compressed payload `c`.
pub open spec fn plan_sa2_ok(p: BuildPlan, inp: BuildInputs, c: Seq<u8>) -> bool {
    &&& p.enc_sa2 matches Some(e) && e@ == aes_cbc_enc(
        padded_sa(c),
        inp.sa2_key.unwrap()@,
        inp.sa2_iv.unwrap()@,
    ) && e@.len() == block_round_up(c.len())
    &&& p.sa2_header == Some(
        HeaderParams {
            key: inp.sa2_key.unwrap(),
            iv: inp.sa2_iv.unwrap(),
            app_key: inp.app_key,
            key_iv: inp.sa2_key_iv.unwrap(),
            len: block_round_up(c.len()) as u32,
            cid: inp.sa2_cid.unwrap(),
        },
    )
}

/// Validates, compresses, pads and encrypts the components of one build.
///
/// The SK payload must fit [`SK_SIZE`]; each application payload (SA2 after
/// compression) must block-pad to a length that fits the header's 32-bit
/// length field.  The first component that does not fit aborts the build
/// with its role and actual length, SK first, then SA1, then SA2.
pub fn plan_build(inp: BuildInputs) -> (r: Result<BuildPlan, MakeSKSAError>)
    requires
        inp.wf(),
    ensures
        inp.sk@.len() > SK_SIZE ==> (r matches Err(e) && e == MakeSKSAError::ComponentTooLong(
            SKSAComponent::Sk,
            inp.sk@.len() as usize,
            SK_SIZE,
        )),
        inp.sk@.len() <= SK_SIZE && !sa_fits(inp.sa1@) ==> (r matches Err(e) && e
            == MakeSKSAError::ComponentTooLong(
            SKSAComponent::Sa1,
            inp.sa1@.len() as usize,
            u32::MAX as usize,
        )),
        inp.sk@.len() <= SK_SIZE && sa_fits(inp.sa1@) && inp.sa2 is None ==> (r matches Ok(p)
            && plan_base_ok(p, inp) && p.sa2_header is None && p.enc_sa2 is None),
        inp.sk@.len() <= SK_SIZE && sa_fits(inp.sa1@) ==> (inp.sa2 matches Some(s2)
            ==> (!sa_fits(deflate_fast(s2@)) ==> (r matches Err(e) && e
            == MakeSKSAError::ComponentTooLong(
            SKSAComponent::Sa2,
            deflate_fast(s2@).len() as usize,
            u32::MAX as usize,
        )))),
        inp.sk@.len() <= SK_SIZE && sa_fits(inp.sa1@) ==> (inp.sa2 matches Some(s2)
            ==> (sa_fits(deflate_fast(s2@)) ==> (r matches Ok(p) && plan_base_ok(p, inp)
            && plan_sa2_ok(p, inp, deflate_fast(s2@))))),
{
    let BuildInputs {
        sk,
        sk_key,
        sk_iv,
        app_key,
        sa1,
        sa1_cid,
        sa1_key,
        sa1_iv,
        sa1_key_iv,
        sa2,
        sa2_cid,
        sa2_key,
        sa2_iv,
        sa2_key_iv,
    } = inp;

    let sk_padded = match pad_sk(sk) {
        Ok(v) => v,
        Err(e) => return Err(e),
    };
    let sa1_padded = match check_and_pad_sa(sa1, SKSAComponent::Sa1) {
        Ok(v) => v,
        Err(e) => return Err(e),
    };
    let sa2_padded: Option<Vec<u8>> = match &sa2 {
        None => None,
        Some(s2) => {
            let c = compress_fast(s2);
            match check_and_pad_sa(c, SKSAComponent::Sa2) {
                Ok(v) => Some(v),
                Err(e) => return Err(e),
            }
        },
    };

    proof {
        crate::pad::lemma_aes_block_aligned(sk_padded@.len());
        crate::pad::lemma_aes_block_aligned(sa1_padded@.len());
    }
    let enc_sk = encrypt_cbc(&sk_padded, &sk_key, &sk_iv);
    let sa1_len = sa1_padded.len() as u32;
    let enc_sa1 = encrypt_cbc(&sa1_padded, &sa1_key, &sa1_iv);
    let sa1_header = HeaderParams {
        key: sa1_key,
        iv: sa1_iv,
        app_key,
        key_iv: sa1_key_iv,
        len: sa1_len,
        cid: sa1_cid,
    };

    let (enc_sa2, sa2_header): (Option<Vec<u8>>, Option<HeaderParams>) = match sa2_padded {
        None => (None, None),
        Some(p2) => {
            proof {
                crate::pad::lemma_aes_block_aligned(p2@.len());
            }
            let key2 = sa2_key.unwrap();
            let iv2 = sa2_iv.unwrap();
            let key_iv2 = sa2_key_iv.unwrap();
            let cid2 = sa2_cid.unwrap();
            let len2 = p2.len() as u32;
            let e2 = encrypt_cbc(&p2, &key2, &iv2);
            let h2 = HeaderParams {
                key: key2,
                iv: iv2,
                app_key,
                key_iv: key_iv2,
                len: len2,
                cid: cid2,
            };
            (Some(e2), Some(h2))
        },
    };

    Ok(
        BuildPlan {
            enc_sk,
            sa1_header,
            enc_sa1,
            sa2_header,
            enc_sa2,
        },
    )
}

/// Appends `src` to `out`.
fn append_bytes(out: &mut Vec<u8>, src: &Vec<u8>)
    ensures
        final(out)@ == old(out)@ + src@,
{
    let ghost before = out@;
    out.extend_from_slice(src.as_slice());
    proof {
        assert(out@ =~= before + src@);
    }
}

/// The bytes of the whole image, from the prepared sections, the header
/// bodies and the filler: encrypted SK, finished SA1 header, encrypted SA1,
/// and, when SA2 is present, its finished header and encrypted payload.
pub open spec fn image_of(
    enc_sk: Seq<u8>,
    sa1_body: Seq<u8>,
    enc_sa1: Seq<u8>,
    sa2: Option<(Seq<u8>, Seq<u8>)>,
    filler: Seq<u8>,
) -> Seq<u8> {
    let base = enc_sk + finished_header(sa1_body, filler) + enc_sa1;
    match sa2 {
        None => base,
        Some((sa2_body, enc_sa2)) => base + finished_header(sa2_body, filler) + enc_sa2,
    }
}

/// Finishes both headers and concatenates the sections of the image in
/// their fixed order.  With no SA2 the image holds exactly the encrypted
/// SK, the SA1 header block and the encrypted SA1, and nothing after them.
pub fn assemble_image(
    plan: &BuildPlan,
    sa1_body: Vec<u8>,
    sa2_body: Option<Vec<u8>>,
    filler: &Vec<u8>,
) -> (r: Vec<u8>)
    requires
        sa1_body@.len() + filler@.len() <= usize::MAX,
        (sa2_body matches Some(b2) ==> b2@.len() + filler@.len() <= usize::MAX),
        plan.enc_sa2 is Some <==> sa2_body is Some,
    ensures
        sa2_body is None ==> r@ == image_of(plan.enc_sk@, sa1_body@, plan.enc_sa1@, None, filler@),
        sa2_body is None ==> r@.len() == plan.enc_sk@.len() + BLOCK_SIZE + plan.enc_sa1@.len(),
        sa2_body matches Some(b2) ==> (plan.enc_sa2 matches Some(e2) ==> r@ == image_of(
            plan.enc_sk@,
            sa1_body@,
            plan.enc_sa1@,
            Some((b2@, e2@)),
            filler@,
        )),
{
    let h1 = finish_header(sa1_body, filler);
    let mut out: Vec<u8> = Vec::new();
    append_bytes(&mut out, &plan.enc_sk);
    append_bytes(&mut out, &h1);
    append_bytes(&mut out, &plan.enc_sa1);
    match sa2_body {
        None => {},
        Some(b2) => {
            let h2 = finish_header(b2, filler);
            match &plan.enc_sa2 {
                Some(e2) => {
                    append_bytes(&mut out, &h2);
                    append_bytes(&mut out, e2);
                },
                None => {
                    proof {
                        assert(false);
                    }
                },
            }
        },
    }
    out
}

/// The image is a function of its inputs alone: two builds over identical
/// prepared sections, header bodies and filler yield byte-identical images.
pub proof fn lemma_image_deterministic(
    enc_sk: Seq<u8>,
    sa1_body: Seq<u8>,
    enc_sa1: Seq<u8>,
    sa2: Option<(Seq<u8>, Seq<u8>)>,
    filler: Seq<u8>,
    other_enc_sk: Seq<u8>,
    other_sa1_body: Seq<u8>,
    other_enc_sa1: Seq<u8>,
    other_sa2: Option<(Seq<u8>, Seq<u8>)>,
    other_filler: Seq<u8>,
)
    requires
        enc_sk == other_enc_sk,
        sa1_body == other_sa1_body,
        enc_sa1 == other_enc_sa1,
        sa2 == other_sa2,
        filler == other_filler,
    ensures
        image_of(enc_sk, sa1_body, enc_sa1, sa2, filler) == image_of(
            other_enc_sk,
            other_sa1_body,
            other_enc_sa1,
            other_sa2,
            other_filler,
        ),
{
}

} // verus!
