//! The replay-key deriver: computes the deterministic storage address under
//! which the execution engine records that an attestation has been consumed.
//! A fixed domain-separation prefix is concatenated with the emitter chain,
//! emitter address, nonce and payload bytes; the result is split into 32-byte
//! seed chunks and handed to the platform's program-derived-address function,
//! keyed by the target program address.
use vstd::prelude::*;

use crate::bytes::{
    push_bytes, push_u16_be, push_u32_be, u16_be, u32_be, lemma_u16_be_round_trip,
    lemma_u32_be_round_trip,
};
use crate::BridgeError;

verus! {

/// The domain-separation prefix of the replay-key namespace: the bytes of
/// the ASCII text `PostedVAA`.
pub open spec fn domain_prefix() -> Seq<u8> {
    seq![80u8, 111u8, 115u8, 116u8, 101u8, 100u8, 86u8, 65u8, 65u8]
}

/// The seed bytes committed to by the replay key:
/// `prefix || emitter_chain || emitter_address || nonce || payload`.
pub open spec fn replay_seed(emitter: Seq<u8>, chain: u16, nonce: u32, payload: Seq<u8>) -> Seq<
    u8,
> {
    domain_prefix() + u16_be(chain) + emitter + u32_be(nonce) + payload
}

/// The seed bytes split into chunks of at most 32 bytes, in order.
pub open spec fn chunks_of(s: Seq<u8>) -> Seq<Seq<u8>>
    decreases s.len(),
{
    if s.len() <= 32 {
        seq![s]
    } else {
        seq![s.take(32)] + chunks_of(s.skip(32))
    }
}

/// The program-derived address that the platform computes from the given
/// seed chunks under the given program address, or `None` where the
/// derivation finds no valid address. The derivation is a deterministic
/// function of the two arguments alone.
pub uninterp spec fn pda_of(seeds: Seq<Seq<u8>>, program: Seq<u8>) -> Option<Seq<u8>>;

/// The replay key for the given envelope fields, payload and target program.
pub open spec fn replay_key_of(
    emitter: Seq<u8>,
    chain: u16,
    nonce: u32,
    payload: Seq<u8>,
    program: Seq<u8>,
) -> Option<Seq<u8>> {
    pda_of(chunks_of(replay_seed(emitter, chain, nonce, payload)), program)
}

/// Relies on `solana_program::pubkey::Pubkey::try_find_program_address`: a
/// deterministic, side-effect-free derivation from the seed slices and the
/// program address alone, returning a 32-byte address or `None` where no
/// valid address exists for these seeds.
#[verifier::external_body]
fn find_derived_address(chunks: &Vec<Vec<u8>>, program: &Vec<u8>) -> (r: Option<Vec<u8>>)
    requires
        program@.len() == 32,
    ensures
        (r is Some) == (pda_of(chunks@.map_values(|c: Vec<u8>| c@), program@) is Some),
        r matches Some(k) ==> k@ == pda_of(
            chunks@.map_values(|c: Vec<u8>| c@),
            program@,
        ).unwrap(),
        r matches Some(k) ==> k@.len() == 32,
{
    let seeds: Vec<&[u8]> = chunks.iter().map(|c| c.as_slice()).collect();
    let program_id = solana_program::pubkey::Pubkey::new_from_array(
        program.as_slice().try_into().unwrap(),
    );
    solana_program::pubkey::Pubkey::try_find_program_address(seeds.as_slice(), &program_id).map(
        |(key, _bump)| key.to_bytes().to_vec(),
    )
}

/// Builds the replay-seed bytes for the given envelope fields and payload.
pub fn build_replay_seed(emitter: &Vec<u8>, chain: u16, nonce: u32, payload: &Vec<u8>) -> (r: Vec<
    u8,
>)
    ensures
        r@ == replay_seed(emitter@, chain, nonce, payload@),
{
    let mut out: Vec<u8> = Vec::new();
    out.push(80u8);
    out.push(111u8);
    out.push(115u8);
    out.push(116u8);
    out.push(101u8);
    out.push(100u8);
    out.push(86u8);
    out.push(65u8);
    out.push(65u8);
    proof {
        assert(out@ =~= domain_prefix());
    }
    push_u16_be(&mut out, chain);
    push_bytes(&mut out, emitter);
    push_u32_be(&mut out, nonce);
    push_bytes(&mut out, payload);
    proof {
        assert(out@ =~= replay_seed(emitter@, chain, nonce, payload@));
    }
    out
}

/// Splits seed bytes into chunks of at most 32 bytes, in order.
pub fn chunk_seed(bytes: &Vec<u8>) -> (r: Vec<Vec<u8>>)
    ensures
        r@.map_values(|c: Vec<u8>| c@) == chunks_of(bytes@),
{
    let len: usize = bytes.len();
    let mut chunks: Vec<Vec<u8>> = Vec::new();
    let mut off: usize = 0;
    proof {
        assert(bytes@.skip(0) =~= bytes@);
        assert(chunks@.map_values(|c: Vec<u8>| c@) + chunks_of(bytes@) =~= chunks_of(bytes@));
    }
    while len - off > 32
        invariant
            off <= len,
            len == bytes@.len(),
            chunks_of(bytes@) == chunks@.map_values(|c: Vec<u8>| c@) + chunks_of(
                bytes@.skip(off as int),
            ),
        decreases len - off,
    {
        let chunk = crate::bytes::read_bytes(bytes, off, 32);
        proof {
            let rest = bytes@.skip(off as int);
            assert(rest.len() > 32);
            assert(rest.take(32) =~= chunk@);
            assert(rest.skip(32) =~= bytes@.skip(off + 32));
            assert(chunks@.push(chunk).map_values(|c: Vec<u8>| c@) =~= chunks@.map_values(
                |c: Vec<u8>| c@,
            ).push(chunk@));
        }
        chunks.push(chunk);
        off += 32;
    }
    let last = crate::bytes::read_bytes(bytes, off, len - off);
    proof {
        let rest = bytes@.skip(off as int);
        assert(rest.len() <= 32);
        assert(rest =~= last@);
        assert(chunks@.push(last).map_values(|c: Vec<u8>| c@) =~= chunks@.map_values(
            |c: Vec<u8>| c@,
        ).push(last@));
    }
    chunks.push(last);
    proof {
        assert(chunks@.map_values(|c: Vec<u8>| c@) =~= chunks_of(bytes@));
    }
    chunks
}

/// Derives the replay key for `(emitter_address, emitter_chain, nonce,
/// payload_bytes)` under `program`. Deterministic: the result is a function
/// of the five arguments alone. Fails with `ActionConstructionFailed`
/// exactly where the platform's derivation finds no valid address.
pub fn derive_replay_key(
    emitter: &Vec<u8>,
    emitter_chain: u16,
    nonce: u32,
    payload: &Vec<u8>,
    program: &Vec<u8>,
) -> (r: Result<Vec<u8>, BridgeError>)
    requires
        emitter@.len() == 32,
        program@.len() == 32,
    ensures
        (r is Ok) == (replay_key_of(emitter@, emitter_chain, nonce, payload@, program@)
            is Some),
        r matches Ok(k) ==> k@ == replay_key_of(
            emitter@,
            emitter_chain,
            nonce,
            payload@,
            program@,
        ).unwrap() && k@.len() == 32,
        r is Err ==> r === Err(BridgeError::ActionConstructionFailed),
{
    let seed = build_replay_seed(emitter, emitter_chain, nonce, payload);
    let chunks = chunk_seed(&seed);
    match find_derived_address(&chunks, program) {
        Some(key) => Ok(key),
        None => Err(BridgeError::ActionConstructionFailed),
    }
}

/// Determinism of the replay key: two derivations from identical inputs
/// yield identical results. Each call of `derive_replay_key` returns exactly
/// `replay_key_of` of its inputs, so any two results for one input tuple are
/// equal.
pub proof fn lemma_replay_key_deterministic(
    emitter: Seq<u8>,
    chain: u16,
    nonce: u32,
    payload: Seq<u8>,
    program: Seq<u8>,
    k1: Option<Seq<u8>>,
    k2: Option<Seq<u8>>,
)
    requires
        k1 == replay_key_of(emitter, chain, nonce, payload, program),
        k2 == replay_key_of(emitter, chain, nonce, payload, program),
    ensures
        k1 == k2,
{
}

/// The replay-seed commitment is injective: two different input tuples (with
/// 32-byte emitter addresses) never produce the same seed bytes, so distinct
/// attestations commit to distinct seeds and collide only if the platform's
/// derivation itself collides.
pub proof fn lemma_replay_seed_injective(
    e1: Seq<u8>,
    c1: u16,
    n1: u32,
    p1: Seq<u8>,
    e2: Seq<u8>,
    c2: u16,
    n2: u32,
    p2: Seq<u8>,
)
    requires
        e1.len() == 32,
        e2.len() == 32,
        replay_seed(e1, c1, n1, p1) == replay_seed(e2, c2, n2, p2),
    ensures
        e1 == e2,
        c1 == c2,
        n1 == n2,
        p1 == p2,
{
    let s1 = replay_seed(e1, c1, n1, p1);
    let s2 = replay_seed(e2, c2, n2, p2);
    assert(s1.len() == 47 + p1.len());
    assert(s2.len() == 47 + p2.len());
    lemma_u16_be_round_trip(c1);
    lemma_u16_be_round_trip(c2);
    assert(s1[9] == u16_be(c1)[0] && s1[10] == u16_be(c1)[1]);
    assert(s2[9] == u16_be(c2)[0] && s2[10] == u16_be(c2)[1]);
    lemma_u32_be_round_trip(n1);
    lemma_u32_be_round_trip(n2);
    assert(forall|i: int|
        0 <= i < 4 ==> s1[43 + i] == u32_be(n1)[i] && s2[43 + i] == u32_be(n2)[i]);
    assert(e1 =~= e2) by {
        assert(forall|i: int| 0 <= i < 32 ==> e1[i] == s1[11 + i] && e2[i] == s2[11 + i]);
    }
    assert(p1 =~= p2) by {
        assert(forall|i: int| 0 <= i < p1.len() ==> p1[i] == s1[47 + i] && p2[i] == s2[47 + i]);
    }
}

} // verus!
