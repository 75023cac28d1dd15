use solana_program::pubkey::Pubkey;
use token_bridge::action::AccountRole;
use token_bridge::dispatch::{
    attest_ix, complete_transfer_native_ix, complete_transfer_wrapped_ix, create_wrapped_ix,
    register_chain_ix, transfer_native_ix, transfer_wrapped_ix, upgrade_contract_ix,
};
use token_bridge::BridgeError;

fn make_vaa(
    version: u8,
    guardian_set_index: u32,
    timestamp: u32,
    nonce: u32,
    emitter_chain: u16,
    emitter: [u8; 32],
    sequence: u64,
    consistency: u8,
    payload: &[u8],
) -> Vec<u8> {
    let mut v = Vec::new();
    v.push(version);
    v.extend_from_slice(&guardian_set_index.to_be_bytes());
    v.extend_from_slice(&timestamp.to_be_bytes());
    v.extend_from_slice(&nonce.to_be_bytes());
    v.extend_from_slice(&emitter_chain.to_be_bytes());
    v.extend_from_slice(&emitter);
    v.extend_from_slice(&sequence.to_be_bytes());
    v.push(consistency);
    v.extend_from_slice(payload);
    v
}

fn make_transfer_payload(
    amount: u64,
    token_address: [u8; 32],
    token_chain: u16,
    to: [u8; 32],
    to_chain: u16,
    fee: u64,
) -> Vec<u8> {
    let mut p = vec![1u8];
    let mut amount32 = [0u8; 32];
    amount32[24..].copy_from_slice(&amount.to_be_bytes());
    p.extend_from_slice(&amount32);
    p.extend_from_slice(&token_address);
    p.extend_from_slice(&token_chain.to_be_bytes());
    p.extend_from_slice(&to);
    p.extend_from_slice(&to_chain.to_be_bytes());
    let mut fee32 = [0u8; 32];
    fee32[24..].copy_from_slice(&fee.to_be_bytes());
    p.extend_from_slice(&fee32);
    p
}

fn expected_message_key(
    emitter: &[u8; 32],
    chain: u16,
    nonce: u32,
    payload: &[u8],
    program: &[u8; 32],
) -> Vec<u8> {
    let mut seed = Vec::new();
    seed.extend_from_slice(b"PostedVAA");
    seed.extend_from_slice(&chain.to_be_bytes());
    seed.extend_from_slice(emitter);
    seed.extend_from_slice(&nonce.to_be_bytes());
    seed.extend_from_slice(payload);
    let chunks: Vec<&[u8]> = seed.chunks(32).collect();
    let program_id = Pubkey::new_from_array(*program);
    let (k, _) = Pubkey::try_find_program_address(&chunks, &program_id).unwrap();
    k.to_bytes().to_vec()
}

#[test]
fn attest_builds_descriptor() {
    let program = vec![1u8; 32];
    let bridge = vec![2u8; 32];
    let payer = vec![3u8; 32];
    let mint = vec![4u8; 32];
    let mint_meta = vec![5u8; 32];
    let d = attest_ix(&program, &bridge, &payer, &mint, 9, &mint_meta, 7).unwrap();
    assert_eq!(d.accounts.len(), 5);
    assert_eq!(d.accounts[0].address, payer);
    assert_eq!(d.accounts[0].role, AccountRole::Payer);
    assert!(d.accounts[0].writable && d.accounts[0].signer);
    assert_eq!(d.accounts[1].address, bridge);
    assert_eq!(d.accounts[1].role, AccountRole::Bridge);
    assert_eq!(d.accounts[2].address, mint);
    assert_eq!(d.accounts[3].address, mint_meta);
    assert_eq!(d.accounts[4].address, program);
    let mut want = vec![1u8];
    want.extend_from_slice(&7u32.to_be_bytes());
    want.push(9);
    assert_eq!(d.data, want);
}

#[test]
fn attest_rejects_bad_address() {
    let ok = vec![1u8; 32];
    let bad = vec![1u8; 31];
    assert!(matches!(
        attest_ix(&ok, &ok, &bad, &ok, 9, &ok, 7),
        Err(BridgeError::InvalidAddress)
    ));
}

#[test]
fn transfer_native_builds_descriptor() {
    let program = vec![1u8; 32];
    let bridge = vec![2u8; 32];
    let payer = vec![3u8; 32];
    let from = vec![4u8; 32];
    let mint = vec![5u8; 32];
    let target = vec![6u8; 32];
    let d = transfer_native_ix(&program, &bridge, &payer, &from, &mint, 7, 1000, 3, &target, 2)
        .unwrap();
    assert_eq!(d.accounts.len(), 5);
    assert_eq!(d.accounts[2].address, from);
    assert_eq!(d.accounts[2].role, AccountRole::Source);
    let mut want = vec![2u8];
    want.extend_from_slice(&7u32.to_be_bytes());
    want.extend_from_slice(&1000u64.to_be_bytes());
    want.extend_from_slice(&3u64.to_be_bytes());
    want.extend_from_slice(&target);
    want.extend_from_slice(&2u16.to_be_bytes());
    assert_eq!(d.data, want);
}

#[test]
fn transfer_native_rejects_bad_target_address() {
    let ok = vec![1u8; 32];
    let bad_target = vec![6u8; 20];
    assert!(matches!(
        transfer_native_ix(&ok, &ok, &ok, &ok, &ok, 7, 1000, 3, &bad_target, 2),
        Err(BridgeError::InvalidAddress)
    ));
}

#[test]
fn transfer_wrapped_builds_descriptor() {
    let program = vec![1u8; 32];
    let bridge = vec![2u8; 32];
    let payer = vec![3u8; 32];
    let from = vec![4u8; 32];
    let from_owner = vec![5u8; 32];
    let token = vec![6u8; 32];
    let target = vec![7u8; 32];
    let d = transfer_wrapped_ix(
        &program, &bridge, &payer, &from, &from_owner, 3, &token, 7, 1000, 0, &target, 2,
    )
    .unwrap();
    assert_eq!(d.accounts.len(), 5);
    assert_eq!(d.accounts[3].address, from_owner);
    assert_eq!(d.accounts[3].role, AccountRole::SourceOwner);
    assert!(d.accounts[3].signer);
    let mut want = vec![3u8];
    want.extend_from_slice(&7u32.to_be_bytes());
    want.extend_from_slice(&1000u64.to_be_bytes());
    want.extend_from_slice(&0u64.to_be_bytes());
    want.extend_from_slice(&target);
    want.extend_from_slice(&2u16.to_be_bytes());
    want.extend_from_slice(&3u16.to_be_bytes());
    want.extend_from_slice(&token);
    assert_eq!(d.data, want);
}

#[test]
fn complete_native_end_to_end() {
    let program = vec![1u8; 32];
    let bridge = vec![2u8; 32];
    let payer = vec![3u8; 32];
    let emitter = [0xEEu8; 32];
    let token_address = [0xAAu8; 32];
    let recipient = [0xBBu8; 32];
    let payload = make_transfer_payload(1000, token_address, 1, recipient, 2, 0);
    let vaa = make_vaa(1, 0, 1000, 42, 1, emitter, 5, 32, &payload);
    let d = complete_transfer_native_ix(&program, &bridge, &payer, &vaa).unwrap();
    assert_eq!(d.accounts.len(), 6);
    let key = expected_message_key(&emitter, 1, 42, &payload, &[1u8; 32]);
    assert_eq!(d.accounts[2].address, key);
    assert_eq!(d.accounts[2].role, AccountRole::Message);
    assert_eq!(d.accounts[3].address, recipient.to_vec());
    assert_eq!(d.accounts[3].role, AccountRole::Recipient);
    assert_eq!(d.accounts[4].address, token_address.to_vec());
    assert_eq!(d.accounts[4].role, AccountRole::Token);
    // Instruction data: the action tag followed by the envelope summary,
    // which is exactly the envelope's 56-byte header.
    assert_eq!(d.data[0], 4);
    assert_eq!(&d.data[1..], &vaa[..56]);

    // The same attestation with a different nonce derives a different key.
    let vaa43 = make_vaa(1, 0, 1000, 43, 1, emitter, 5, 32, &payload);
    let d43 = complete_transfer_native_ix(&program, &bridge, &payer, &vaa43).unwrap();
    assert_ne!(d43.accounts[2].address, d.accounts[2].address);
}

#[test]
fn complete_native_rejects_altered_discriminator() {
    let program = vec![1u8; 32];
    let bridge = vec![2u8; 32];
    let payer = vec![3u8; 32];
    let mut payload = make_transfer_payload(1000, [0xAAu8; 32], 1, [0xBBu8; 32], 2, 0);
    payload[0] = 2;
    let vaa = make_vaa(1, 0, 1000, 42, 1, [0xEEu8; 32], 5, 32, &payload);
    assert!(matches!(
        complete_transfer_native_ix(&program, &bridge, &payer, &vaa),
        Err(BridgeError::InvalidDiscriminator)
    ));
}

#[test]
fn empty_attestation_is_malformed_for_every_action() {
    let a = vec![1u8; 32];
    let empty: Vec<u8> = Vec::new();
    assert!(matches!(
        complete_transfer_native_ix(&a, &a, &a, &empty),
        Err(BridgeError::MalformedEnvelope)
    ));
    assert!(matches!(
        complete_transfer_wrapped_ix(&a, &a, &a, &empty),
        Err(BridgeError::MalformedEnvelope)
    ));
    assert!(matches!(
        create_wrapped_ix(&a, &a, &a, &empty),
        Err(BridgeError::MalformedEnvelope)
    ));
    assert!(matches!(
        upgrade_contract_ix(&a, &a, &a, &empty),
        Err(BridgeError::MalformedEnvelope)
    ));
    assert!(matches!(
        register_chain_ix(&a, &a, &a, &empty),
        Err(BridgeError::MalformedEnvelope)
    ));
}

#[test]
fn complete_wrapped_end_to_end() {
    let program = vec![1u8; 32];
    let bridge = vec![2u8; 32];
    let payer = vec![3u8; 32];
    let recipient = [0xBBu8; 32];
    let token = [0xAAu8; 32];
    let payload = make_transfer_payload(77, token, 4, recipient, 1, 0);
    let vaa = make_vaa(1, 0, 1000, 9, 4, [0xEEu8; 32], 5, 32, &payload);
    let d = complete_transfer_wrapped_ix(&program, &bridge, &payer, &vaa).unwrap();
    assert_eq!(d.accounts.len(), 5);
    assert_eq!(d.accounts[3].address, recipient.to_vec());
    assert_eq!(d.data[0], 5);
    assert_eq!(&d.data[1..57], &vaa[..56]);
    assert_eq!(&d.data[57..59], &4u16.to_be_bytes());
    assert_eq!(&d.data[59..], &token);
}

#[test]
fn create_wrapped_end_to_end() {
    let program = vec![1u8; 32];
    let bridge = vec![2u8; 32];
    let payer = vec![3u8; 32];
    let mut payload = vec![2u8];
    payload.extend_from_slice(&[5u8; 32]);
    payload.extend_from_slice(&7u16.to_be_bytes());
    payload.push(9);
    payload.extend_from_slice(&[b'S'; 32]);
    payload.extend_from_slice(&[b'N'; 32]);
    let vaa = make_vaa(1, 0, 1000, 9, 7, [0xEEu8; 32], 5, 32, &payload);
    let d = create_wrapped_ix(&program, &bridge, &payer, &vaa).unwrap();
    assert_eq!(d.accounts.len(), 4);
    assert_eq!(d.accounts[2].role, AccountRole::Message);
    assert_eq!(d.data[0], 6);
    assert_eq!(&d.data[1..57], &vaa[..56]);
    assert_eq!(&d.data[57..89], &[5u8; 32]);
    assert_eq!(&d.data[89..91], &7u16.to_be_bytes());
    assert_eq!(d.data[91], 9);
    assert_eq!(&d.data[92..124], &[b'S'; 32]);
    assert_eq!(&d.data[124..], &[b'N'; 32]);
}

#[test]
fn upgrade_includes_spill_and_no_bridge() {
    let program = vec![1u8; 32];
    let payer = vec![3u8; 32];
    let spill = vec![4u8; 32];
    let new_contract = [0xCCu8; 32];
    let mut payload = vec![4u8];
    payload.extend_from_slice(&new_contract);
    let vaa = make_vaa(1, 0, 1000, 9, 1, [0xEEu8; 32], 5, 32, &payload);
    let d = upgrade_contract_ix(&program, &payer, &spill, &vaa).unwrap();
    assert!(d.accounts.iter().any(|a| a.address == spill && a.role == AccountRole::Spill));
    assert!(d.accounts.iter().all(|a| a.role != AccountRole::Bridge));
    assert!(d.accounts.iter().any(|a| a.address == new_contract.to_vec()
        && a.role == AccountRole::NewContract));
    assert!(d.accounts.iter().any(|a| a.address == [0xEEu8; 32].to_vec()
        && a.role == AccountRole::Emitter));
    assert_eq!(d.data[0], 7);
    assert_eq!(&d.data[1..], &vaa[..56]);
}

#[test]
fn register_chain_includes_bridge() {
    let program = vec![1u8; 32];
    let bridge = vec![2u8; 32];
    let payer = vec![3u8; 32];
    let mut payload = vec![3u8];
    payload.extend_from_slice(&1u16.to_be_bytes());
    payload.extend_from_slice(&4u16.to_be_bytes());
    payload.extend_from_slice(&[8u8; 32]);
    let vaa = make_vaa(1, 0, 1000, 9, 1, [0xEEu8; 32], 5, 32, &payload);
    let d = register_chain_ix(&program, &bridge, &payer, &vaa).unwrap();
    assert!(d.accounts.iter().any(|a| a.address == bridge && a.role == AccountRole::Bridge));
    assert_eq!(d.data[0], 8);
    assert_eq!(&d.data[1..57], &vaa[..56]);
    assert_eq!(&d.data[57..59], &4u16.to_be_bytes());
    assert_eq!(&d.data[59..], &[8u8; 32]);
}

#[test]
fn wrong_width_payload_is_length_mismatch_in_dispatch() {
    let a = vec![1u8; 32];
    // An Upgrade-width payload handed to the RegisterChain action.
    let mut payload = vec![4u8];
    payload.extend_from_slice(&[3u8; 32]);
    let vaa = make_vaa(1, 0, 1000, 9, 1, [0xEEu8; 32], 5, 32, &payload);
    assert!(matches!(
        register_chain_ix(&a, &a, &a, &vaa),
        Err(BridgeError::PayloadLengthMismatch)
    ));
}
