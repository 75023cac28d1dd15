use token_bridge::bytes::{push_u16_be, push_u32_be, push_u64_be, read_u16_be, read_u32_be, read_u64_be};
use token_bridge::envelope::{decode_envelope, encode_envelope};
use token_bridge::payload::{
    decode_asset_meta, decode_register_chain, decode_transfer, decode_upgrade, encode_asset_meta,
    encode_register_chain, encode_transfer, encode_upgrade,
};
use token_bridge::BridgeError;

fn make_vaa(
    version: u8,
    guardian_set_index: u32,
    timestamp: u32,
    nonce: u32,
    emitter_chain: u16,
    emitter: [u8; 32],
    sequence: u64,
    consistency: u8,
    payload: &[u8],
) -> Vec<u8> {
    let mut v = Vec::new();
    v.push(version);
    v.extend_from_slice(&guardian_set_index.to_be_bytes());
    v.extend_from_slice(&timestamp.to_be_bytes());
    v.extend_from_slice(&nonce.to_be_bytes());
    v.extend_from_slice(&emitter_chain.to_be_bytes());
    v.extend_from_slice(&emitter);
    v.extend_from_slice(&sequence.to_be_bytes());
    v.push(consistency);
    v.extend_from_slice(payload);
    v
}

fn make_transfer_payload(
    amount: u64,
    token_address: [u8; 32],
    token_chain: u16,
    to: [u8; 32],
    to_chain: u16,
    fee: u64,
) -> Vec<u8> {
    let mut p = vec![1u8];
    let mut amount32 = [0u8; 32];
    amount32[24..].copy_from_slice(&amount.to_be_bytes());
    p.extend_from_slice(&amount32);
    p.extend_from_slice(&token_address);
    p.extend_from_slice(&token_chain.to_be_bytes());
    p.extend_from_slice(&to);
    p.extend_from_slice(&to_chain.to_be_bytes());
    let mut fee32 = [0u8; 32];
    fee32[24..].copy_from_slice(&fee.to_be_bytes());
    p.extend_from_slice(&fee32);
    p
}

#[test]
fn integer_codec_round_trips() {
    let mut v: Vec<u8> = Vec::new();
    push_u16_be(&mut v, 0xBEEF);
    push_u32_be(&mut v, 0xDEADBEEF);
    push_u64_be(&mut v, 0x0123456789ABCDEF);
    assert_eq!(v.len(), 14);
    assert_eq!(v[0], 0xBE);
    assert_eq!(v[1], 0xEF);
    assert_eq!(read_u16_be(&v, 0), 0xBEEF);
    assert_eq!(read_u32_be(&v, 2), 0xDEADBEEF);
    assert_eq!(read_u64_be(&v, 6), 0x0123456789ABCDEF);
}

#[test]
fn envelope_decode_reads_every_field() {
    let emitter = [7u8; 32];
    let payload = [9u8, 8, 7];
    let bytes = make_vaa(1, 3, 1700000000, 42, 1, emitter, 99, 32, &payload);
    let e = decode_envelope(&bytes).unwrap();
    assert_eq!(e.version, 1);
    assert_eq!(e.guardian_set_index, 3);
    assert_eq!(e.timestamp, 1700000000);
    assert_eq!(e.nonce, 42);
    assert_eq!(e.emitter_chain, 1);
    assert_eq!(e.emitter_address, emitter.to_vec());
    assert_eq!(e.sequence, 99);
    assert_eq!(e.consistency_level, 32);
    assert_eq!(e.payload, payload.to_vec());
}

#[test]
fn envelope_decode_then_reencode_is_identity() {
    let bytes = make_vaa(1, 2, 3, 4, 5, [6u8; 32], 7, 8, &[1, 2, 3, 4, 5]);
    let e = decode_envelope(&bytes).unwrap();
    assert_eq!(encode_envelope(&e), bytes);

    let no_payload = make_vaa(0, 0, 0, 0, 0, [0u8; 32], 0, 0, &[]);
    let e2 = decode_envelope(&no_payload).unwrap();
    assert_eq!(encode_envelope(&e2), no_payload);
}

#[test]
fn envelope_shorter_than_header_is_malformed() {
    assert!(matches!(decode_envelope(&Vec::new()), Err(BridgeError::MalformedEnvelope)));
    let bytes55 = vec![0u8; 55];
    assert!(matches!(decode_envelope(&bytes55), Err(BridgeError::MalformedEnvelope)));
    let bytes56 = vec![0u8; 56];
    assert!(decode_envelope(&bytes56).is_ok());
}

#[test]
fn transfer_decode_reads_every_field() {
    let p = make_transfer_payload(1000, [2u8; 32], 3, [4u8; 32], 2, 5);
    let t = decode_transfer(&p).unwrap();
    let mut amount32 = [0u8; 32];
    amount32[24..].copy_from_slice(&1000u64.to_be_bytes());
    assert_eq!(t.amount, amount32.to_vec());
    assert_eq!(t.token_address, [2u8; 32].to_vec());
    assert_eq!(t.token_chain, 3);
    assert_eq!(t.to, [4u8; 32].to_vec());
    assert_eq!(t.to_chain, 2);
    let mut fee32 = [0u8; 32];
    fee32[24..].copy_from_slice(&5u64.to_be_bytes());
    assert_eq!(t.fee, fee32.to_vec());
    assert_eq!(encode_transfer(&t), p);
}

#[test]
fn transfer_wrong_length_is_length_mismatch() {
    let p = make_transfer_payload(1, [0u8; 32], 1, [0u8; 32], 1, 0);
    let mut short = p.clone();
    short.pop();
    assert!(matches!(decode_transfer(&short), Err(BridgeError::PayloadLengthMismatch)));
    let mut long = p.clone();
    long.push(0);
    assert!(matches!(decode_transfer(&long), Err(BridgeError::PayloadLengthMismatch)));
    assert!(matches!(decode_transfer(&Vec::new()), Err(BridgeError::PayloadLengthMismatch)));
}

#[test]
fn transfer_wrong_tag_is_invalid_discriminator() {
    let mut p = make_transfer_payload(1, [0u8; 32], 1, [0u8; 32], 1, 0);
    p[0] = 2;
    assert!(matches!(decode_transfer(&p), Err(BridgeError::InvalidDiscriminator)));
}

#[test]
fn asset_meta_decode_and_reencode() {
    let mut p = vec![2u8];
    p.extend_from_slice(&[5u8; 32]);
    p.extend_from_slice(&7u16.to_be_bytes());
    p.push(9);
    p.extend_from_slice(&[b'S'; 32]);
    p.extend_from_slice(&[b'N'; 32]);
    assert_eq!(p.len(), 100);
    let m = decode_asset_meta(&p).unwrap();
    assert_eq!(m.token_address, [5u8; 32].to_vec());
    assert_eq!(m.token_chain, 7);
    assert_eq!(m.decimals, 9);
    assert_eq!(m.symbol, [b'S'; 32].to_vec());
    assert_eq!(m.name, [b'N'; 32].to_vec());
    assert_eq!(encode_asset_meta(&m), p);

    let mut short = p.clone();
    short.pop();
    assert!(matches!(decode_asset_meta(&short), Err(BridgeError::PayloadLengthMismatch)));
    let mut long = p.clone();
    long.push(0);
    assert!(matches!(decode_asset_meta(&long), Err(BridgeError::PayloadLengthMismatch)));
    let mut bad = p.clone();
    bad[0] = 1;
    assert!(matches!(decode_asset_meta(&bad), Err(BridgeError::InvalidDiscriminator)));
}

#[test]
fn register_chain_decode_and_reencode() {
    let mut p = vec![3u8];
    p.extend_from_slice(&1u16.to_be_bytes());
    p.extend_from_slice(&4u16.to_be_bytes());
    p.extend_from_slice(&[8u8; 32]);
    assert_eq!(p.len(), 37);
    let r = decode_register_chain(&p).unwrap();
    assert_eq!(r.target_chain, 1);
    assert_eq!(r.foreign_chain, 4);
    assert_eq!(r.foreign_bridge_address, [8u8; 32].to_vec());
    assert_eq!(encode_register_chain(&r), p);

    let mut short = p.clone();
    short.pop();
    assert!(matches!(decode_register_chain(&short), Err(BridgeError::PayloadLengthMismatch)));
    let mut long = p.clone();
    long.push(0);
    assert!(matches!(decode_register_chain(&long), Err(BridgeError::PayloadLengthMismatch)));
    let mut bad = p.clone();
    bad[0] = 4;
    assert!(matches!(decode_register_chain(&bad), Err(BridgeError::InvalidDiscriminator)));
}

#[test]
fn upgrade_decode_and_reencode() {
    let mut p = vec![4u8];
    p.extend_from_slice(&[3u8; 32]);
    assert_eq!(p.len(), 33);
    let u = decode_upgrade(&p).unwrap();
    assert_eq!(u.new_contract, [3u8; 32].to_vec());
    assert_eq!(encode_upgrade(&u), p);

    let mut short = p.clone();
    short.pop();
    assert!(matches!(decode_upgrade(&short), Err(BridgeError::PayloadLengthMismatch)));
    let mut long = p.clone();
    long.push(0);
    assert!(matches!(decode_upgrade(&long), Err(BridgeError::PayloadLengthMismatch)));
    let mut bad = p.clone();
    bad[0] = 3;
    assert!(matches!(decode_upgrade(&bad), Err(BridgeError::InvalidDiscriminator)));
}
