use makesksa::pad::{check_and_pad_sa, pad_sk};
use makesksa::{MakeSKSAError, SKSAComponent, BLOCK_SIZE, SK_SIZE};

#[test]
fn pad_sk_short_payload_is_zero_extended() {
    let sk = vec![0xAAu8; 100];
    let padded = pad_sk(sk).unwrap();
    assert_eq!(padded.len(), SK_SIZE);
    assert!(padded[..100].iter().all(|&b| b == 0xAA));
    assert!(padded[100..].iter().all(|&b| b == 0));
}

#[test]
fn pad_sk_exact_payload_is_unchanged() {
    let sk = vec![0x5Au8; SK_SIZE];
    let padded = pad_sk(sk.clone()).unwrap();
    assert_eq!(padded, sk);
}

#[test]
fn pad_sk_oversized_payload_is_rejected() {
    let sk = vec![0u8; SK_SIZE + 1];
    let err = pad_sk(sk).unwrap_err();
    assert!(matches!(
        err,
        MakeSKSAError::ComponentTooLong(SKSAComponent::Sk, l, m) if l == SK_SIZE + 1 && m == SK_SIZE
    ));
}

#[test]
fn pad_sa_rounds_up_to_block_size() {
    let data = vec![0x11u8; 10];
    let padded = check_and_pad_sa(data, SKSAComponent::Sa1).unwrap();
    assert_eq!(padded.len(), BLOCK_SIZE);
    assert!(padded[..10].iter().all(|&b| b == 0x11));
    assert!(padded[10..].iter().all(|&b| b == 0));
}

#[test]
fn pad_sa_aligned_payload_is_unchanged() {
    let data = vec![0x22u8; BLOCK_SIZE];
    let padded = check_and_pad_sa(data.clone(), SKSAComponent::Sa1).unwrap();
    assert_eq!(padded, data);
}

#[test]
fn pad_sa_empty_payload_stays_empty() {
    let padded = check_and_pad_sa(Vec::new(), SKSAComponent::Sa1).unwrap();
    assert!(padded.is_empty());
}

#[test]
fn pad_sa_one_past_block_gets_next_block() {
    let data = vec![0x33u8; BLOCK_SIZE + 1];
    let padded = check_and_pad_sa(data, SKSAComponent::Sa2).unwrap();
    assert_eq!(padded.len(), 2 * BLOCK_SIZE);
}
