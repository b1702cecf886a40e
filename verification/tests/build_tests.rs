use makesksa::compress::compress_fast;
use makesksa::crypto::encrypt_cbc;
use makesksa::header::finish_header;
use makesksa::image::{assemble_image, plan_build, BuildInputs};
use makesksa::{MakeSKSAError, SKSAComponent, BLOCK_SIZE, SK_SIZE};

use std::io::Write;

fn inputs(sk: Vec<u8>, sa1: Vec<u8>, sa2: Option<Vec<u8>>) -> BuildInputs {
    let sa2_present = sa2.is_some();
    BuildInputs {
        sk,
        sk_key: [0u8; 16],
        sk_iv: [0u8; 16],
        app_key: [0x0Fu8; 16],
        sa1,
        sa1_cid: 0x1234,
        sa1_key: [0u8; 16],
        sa1_iv: [0u8; 16],
        sa1_key_iv: [0u8; 16],
        sa2,
        sa2_cid: if sa2_present { Some(0x5678) } else { None },
        sa2_key: if sa2_present { Some([0u8; 16]) } else { None },
        sa2_iv: if sa2_present { Some([0u8; 16]) } else { None },
        sa2_key_iv: if sa2_present { Some([0u8; 16]) } else { None },
    }
}

#[test]
fn encrypt_cbc_matches_known_aes_vector() {
    // AES-128 of one all-zero block under the all-zero key and IV.
    let ct = encrypt_cbc(&vec![0u8; 16], &[0u8; 16], &[0u8; 16]);
    assert_eq!(
        ct,
        vec![
            0x66, 0xE9, 0x4B, 0xD4, 0xEF, 0x8A, 0x2C, 0x3B, 0x88, 0x4C, 0xFA, 0x59, 0xCA, 0x34,
            0x2B, 0x2E
        ]
    );
}

#[test]
fn encrypt_cbc_round_trips_through_decryption() {
    let key = [0x01u8; 16];
    let iv = [0x02u8; 16];
    let data = vec![0x7Eu8; 64];
    let ct = encrypt_cbc(&data, &key, &iv);
    assert_ne!(ct, data);
    let pt = soft_aes::aes::aes_dec_cbc(&ct, &key, &iv, None).unwrap();
    assert_eq!(pt, data);
}

#[test]
fn compress_fast_round_trips_through_inflation() {
    let data = b"the quick brown fox jumps over the lazy dog ".repeat(100);
    let compressed = compress_fast(&data);
    assert_ne!(compressed, data);
    assert!(compressed.len() < data.len());
    let mut decoder = flate2::write::DeflateDecoder::new(Vec::new());
    decoder.write_all(&compressed).unwrap();
    let restored = decoder.finish().unwrap();
    assert_eq!(restored, data);
}

#[test]
fn finish_header_appends_filler_and_pads() {
    let body = vec![0xABu8; 100];
    let filler = vec![0xCDu8; 50];
    let header = finish_header(body, &filler);
    assert_eq!(header.len(), BLOCK_SIZE);
    assert!(header[..100].iter().all(|&b| b == 0xAB));
    assert!(header[100..150].iter().all(|&b| b == 0xCD));
    assert!(header[150..].iter().all(|&b| b == 0));
}

#[test]
fn finish_header_truncates_overlong_body() {
    let body = vec![0xABu8; BLOCK_SIZE];
    let filler = vec![0xCDu8; 8];
    let header = finish_header(body, &filler);
    assert_eq!(header.len(), BLOCK_SIZE);
    assert!(header.iter().all(|&b| b == 0xAB));
}

#[test]
fn component_roles_have_names() {
    assert_eq!(SKSAComponent::Sk.name(), "SK");
    assert_eq!(SKSAComponent::Sa1.name(), "SA1");
    assert_eq!(SKSAComponent::Sa2.name(), "SA2");
}

#[test]
fn plan_build_rejects_oversized_sk() {
    let err = plan_build(inputs(vec![0u8; SK_SIZE + 5], vec![1, 2, 3], None)).unwrap_err();
    assert!(matches!(
        err,
        MakeSKSAError::ComponentTooLong(SKSAComponent::Sk, l, m) if l == SK_SIZE + 5 && m == SK_SIZE
    ));
}

#[test]
fn sk_region_decrypts_to_padded_payload() {
    // SK of 100 bytes of 0xAA: the first block-aligned region of the image,
    // decrypted with the SK key and IV, is the payload plus 65436 zero bytes.
    let sk_key = [0x11u8; 16];
    let sk_iv = [0x22u8; 16];
    let mut inp = inputs(vec![0xAAu8; 100], vec![0x33u8; 10], None);
    inp.sk_key = sk_key;
    inp.sk_iv = sk_iv;
    let plan = plan_build(inp).unwrap();
    let image = assemble_image(&plan, vec![0xABu8; 64], None, &vec![0xCDu8; 32]);
    let pt = soft_aes::aes::aes_dec_cbc(&image[..SK_SIZE], &sk_key, &sk_iv, None).unwrap();
    assert!(pt[..100].iter().all(|&b| b == 0xAA));
    assert_eq!(pt.len(), SK_SIZE);
    assert!(pt[100..].iter().all(|&b| b == 0));
}

#[test]
fn sa1_header_and_region_match_declared_length() {
    // SA1 of 10 bytes under the zero key and IV: the header declares the
    // block-aligned length, and that many bytes decrypt back to the payload
    // plus padding zeros.
    let plan = plan_build(inputs(vec![0x44u8; 100], vec![0x99u8; 10], None)).unwrap();
    assert_eq!(plan.sa1_header.len, BLOCK_SIZE as u32);
    assert_eq!(plan.sa1_header.cid, 0x1234);
    assert_eq!(plan.sa1_header.app_key, [0x0Fu8; 16]);
    assert_eq!(plan.enc_sa1.len(), BLOCK_SIZE);
    let pt = soft_aes::aes::aes_dec_cbc(&plan.enc_sa1, &[0u8; 16], &[0u8; 16], None).unwrap();
    assert!(pt[..10].iter().all(|&b| b == 0x99));
    assert!(pt[10..].iter().all(|&b| b == 0));
}

#[test]
fn image_without_sa2_has_exactly_two_sections() {
    let plan = plan_build(inputs(vec![0x01u8; 8], vec![0x02u8; 8], None)).unwrap();
    assert!(plan.sa2_header.is_none());
    assert!(plan.enc_sa2.is_none());
    let body = vec![0xABu8; 64];
    let filler = vec![0xCDu8; 32];
    let image = assemble_image(&plan, body.clone(), None, &filler);
    assert_eq!(image.len(), SK_SIZE + BLOCK_SIZE + BLOCK_SIZE);
    assert_eq!(&image[..SK_SIZE], &plan.enc_sk[..]);
    assert_eq!(&image[SK_SIZE..SK_SIZE + 64], &body[..]);
    assert_eq!(&image[SK_SIZE + 64..SK_SIZE + 96], &filler[..]);
    assert!(image[SK_SIZE + 96..SK_SIZE + BLOCK_SIZE].iter().all(|&b| b == 0));
    assert_eq!(&image[SK_SIZE + BLOCK_SIZE..], &plan.enc_sa1[..]);
}

#[test]
fn sa2_is_compressed_before_padding_and_encryption() {
    let sa2 = b"abcdabcdabcd".repeat(1000);
    let compressed = compress_fast(&sa2);
    let sa2_key = [0x77u8; 16];
    let sa2_iv = [0x88u8; 16];
    let mut inp = inputs(vec![0x01u8; 8], vec![0x02u8; 8], Some(sa2));
    inp.sa2_key = Some(sa2_key);
    inp.sa2_iv = Some(sa2_iv);
    let plan = plan_build(inp).unwrap();
    let hdr = plan.sa2_header.unwrap();
    let enc_sa2 = plan.enc_sa2.unwrap();
    // the header's length field is the block-aligned length of the
    // compressed form, not of the original payload
    assert_eq!(hdr.len, BLOCK_SIZE as u32);
    assert_eq!(hdr.cid, 0x5678);
    assert_eq!(enc_sa2.len(), BLOCK_SIZE);
    let pt = soft_aes::aes::aes_dec_cbc(&enc_sa2, &sa2_key, &sa2_iv, None).unwrap();
    assert_eq!(&pt[..compressed.len()], &compressed[..]);
    assert!(pt[compressed.len()..].iter().all(|&b| b == 0));
}

#[test]
fn image_with_sa2_has_five_sections() {
    let plan = plan_build(inputs(vec![0x01u8; 8], vec![0x02u8; 8], Some(vec![0x03u8; 8]))).unwrap();
    let body1 = vec![0xA1u8; 40];
    let body2 = vec![0xA2u8; 40];
    let filler = vec![0xCDu8; 16];
    let enc_sa2 = plan.enc_sa2.clone().unwrap();
    let image = assemble_image(&plan, body1.clone(), Some(body2.clone()), &filler);
    assert_eq!(
        image.len(),
        SK_SIZE + BLOCK_SIZE + plan.enc_sa1.len() + BLOCK_SIZE + enc_sa2.len()
    );
    let sa2_hdr_at = SK_SIZE + BLOCK_SIZE + plan.enc_sa1.len();
    assert_eq!(&image[sa2_hdr_at..sa2_hdr_at + 40], &body2[..]);
    assert_eq!(&image[sa2_hdr_at + BLOCK_SIZE..], &enc_sa2[..]);
}

#[test]
fn identical_inputs_build_identical_images() {
    let build = || {
        let plan = plan_build(inputs(
            vec![0x10u8; 500],
            vec![0x20u8; 300],
            Some(vec![0x30u8; 200]),
        ))
        .unwrap();
        let sa2_body = vec![0xB2u8; 48];
        assemble_image(&plan, vec![0xB1u8; 48], Some(sa2_body), &vec![0xEEu8; 24])
    };
    assert_eq!(build(), build());
}
