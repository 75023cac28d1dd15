use solana_program::pubkey::Pubkey;
use token_bridge::replay::derive_replay_key;
use token_bridge::BridgeError;

/// Recomputes the replay key the way the execution engine would: prefix,
/// chain, emitter, nonce and payload concatenated, split into 32-byte seed
/// chunks, then the platform's program-derived-address search.
fn independent_key(
    emitter: &[u8; 32],
    chain: u16,
    nonce: u32,
    payload: &[u8],
    program: &[u8; 32],
) -> Option<Vec<u8>> {
    let mut seed = Vec::new();
    seed.extend_from_slice(b"PostedVAA");
    seed.extend_from_slice(&chain.to_be_bytes());
    seed.extend_from_slice(emitter);
    seed.extend_from_slice(&nonce.to_be_bytes());
    seed.extend_from_slice(payload);
    let chunks: Vec<&[u8]> = seed.chunks(32).collect();
    let program_id = Pubkey::new_from_array(*program);
    Pubkey::try_find_program_address(&chunks, &program_id).map(|(k, _)| k.to_bytes().to_vec())
}

#[test]
fn derivation_is_deterministic() {
    let emitter = vec![1u8; 32];
    let payload = vec![5u8; 133];
    let program = vec![9u8; 32];
    let k1 = derive_replay_key(&emitter, 1, 42, &payload, &program).unwrap();
    let k2 = derive_replay_key(&emitter, 1, 42, &payload, &program).unwrap();
    assert_eq!(k1, k2);
    assert_eq!(k1.len(), 32);
}

#[test]
fn derivation_matches_independent_computation() {
    let emitter = [1u8; 32];
    let payload = [5u8; 133];
    let program = [9u8; 32];
    let got = derive_replay_key(&emitter.to_vec(), 1, 42, &payload.to_vec(), &program.to_vec())
        .unwrap();
    let want = independent_key(&emitter, 1, 42, &payload, &program).unwrap();
    assert_eq!(got, want);
}

#[test]
fn changing_any_field_changes_the_key() {
    let emitter = vec![1u8; 32];
    let payload = vec![5u8; 133];
    let program = vec![9u8; 32];
    let base = derive_replay_key(&emitter, 1, 42, &payload, &program).unwrap();

    let other_emitter = vec![2u8; 32];
    assert_ne!(base, derive_replay_key(&other_emitter, 1, 42, &payload, &program).unwrap());
    assert_ne!(base, derive_replay_key(&emitter, 2, 42, &payload, &program).unwrap());
    assert_ne!(base, derive_replay_key(&emitter, 1, 43, &payload, &program).unwrap());
    let mut other_payload = payload.clone();
    other_payload[0] ^= 0xFF;
    assert_ne!(base, derive_replay_key(&emitter, 1, 42, &other_payload, &program).unwrap());
    let other_program = vec![10u8; 32];
    assert_ne!(base, derive_replay_key(&emitter, 1, 42, &payload, &other_program).unwrap());
}

#[test]
fn oversized_payload_fails_construction() {
    // With enough payload bytes the seed splits into 16 or more chunks, and
    // the platform's derivation declines that many seeds.
    let emitter = vec![1u8; 32];
    let payload = vec![5u8; 1000];
    let program = vec![9u8; 32];
    assert!(matches!(
        derive_replay_key(&emitter, 1, 42, &payload, &program),
        Err(BridgeError::ActionConstructionFailed)
    ));
}
