//! The attestation envelope: the outer signed-message structure, decoded once
//! per call. The wire layout is a 56-byte fixed header followed by the opaque
//! payload bytes.
use vstd::prelude::*;

use crate::bytes::{
    read_bytes, read_u16_be, read_u32_be, read_u64_be, push_bytes, push_u16_be, push_u32_be,
    push_u64_be, u16_be, u16_of_be, u32_be, u32_of_be, u64_be, u64_of_be,
    lemma_u16_be_round_trip, lemma_u32_be_round_trip, lemma_u64_be_round_trip,
    lemma_u16_of_be_round_trip, lemma_u32_of_be_round_trip, lemma_u64_of_be_round_trip,
};
use crate::BridgeError;

verus! {

/// Byte length of the fixed envelope header that precedes the payload.
pub const ENVELOPE_HEADER_LEN: usize = 56;

/// An attestation envelope, decoded from raw bytes.
pub struct Envelope {
    pub version: u8,
    pub guardian_set_index: u32,
    pub timestamp: u32,
    pub nonce: u32,
    pub emitter_chain: u16,
    /// 32-byte source-chain emitter address.
    pub emitter_address: Vec<u8>,
    pub sequence: u64,
    pub consistency_level: u8,
    /// The remaining bytes after the fixed header; layout is fixed by the
    /// payload's own schema, opaque at this level.
    pub payload: Vec<u8>,
}

/// Mathematical model of an envelope.
#[verifier::ext_equal]
pub struct EnvelopeModel {
    pub version: u8,
    pub guardian_set_index: u32,
    pub timestamp: u32,
    pub nonce: u32,
    pub emitter_chain: u16,
    pub emitter_address: Seq<u8>,
    pub sequence: u64,
    pub consistency_level: u8,
    pub payload: Seq<u8>,
}

impl EnvelopeModel {
    /// A well-formed envelope carries a 32-byte emitter address.
    pub open spec fn wf(self) -> bool {
        self.emitter_address.len() == 32
    }
}

impl View for Envelope {
    type V = EnvelopeModel;

    open spec fn view(&self) -> EnvelopeModel {
        EnvelopeModel {
            version: self.version,
            guardian_set_index: self.guardian_set_index,
            timestamp: self.timestamp,
            nonce: self.nonce,
            emitter_chain: self.emitter_chain,
            emitter_address: self.emitter_address@,
            sequence: self.sequence,
            consistency_level: self.consistency_level,
            payload: self.payload@,
        }
    }
}

/// The envelope-summary record: every envelope field except the payload,
/// handed to the action-construction routines while the payload is carried
/// separately.
pub struct EnvelopeSummary {
    pub version: u8,
    pub guardian_set_index: u32,
    pub timestamp: u32,
    pub nonce: u32,
    pub emitter_chain: u16,
    /// 32-byte source-chain emitter address.
    pub emitter_address: Vec<u8>,
    pub sequence: u64,
    pub consistency_level: u8,
}

/// Mathematical model of an envelope summary.
#[verifier::ext_equal]
pub struct SummaryModel {
    pub version: u8,
    pub guardian_set_index: u32,
    pub timestamp: u32,
    pub nonce: u32,
    pub emitter_chain: u16,
    pub emitter_address: Seq<u8>,
    pub sequence: u64,
    pub consistency_level: u8,
}

impl View for EnvelopeSummary {
    type V = SummaryModel;

    open spec fn view(&self) -> SummaryModel {
        SummaryModel {
            version: self.version,
            guardian_set_index: self.guardian_set_index,
            timestamp: self.timestamp,
            nonce: self.nonce,
            emitter_chain: self.emitter_chain,
            emitter_address: self.emitter_address@,
            sequence: self.sequence,
            consistency_level: self.consistency_level,
        }
    }
}

/// The summary of an envelope: the same fields with the payload dropped.
pub open spec fn summary_of(m: EnvelopeModel) -> SummaryModel {
    SummaryModel {
        version: m.version,
        guardian_set_index: m.guardian_set_index,
        timestamp: m.timestamp,
        nonce: m.nonce,
        emitter_chain: m.emitter_chain,
        emitter_address: m.emitter_address,
        sequence: m.sequence,
        consistency_level: m.consistency_level,
    }
}

/// The header bytes of an envelope: every field except the payload, in wire
/// order.
pub open spec fn summary_bytes(s: SummaryModel) -> Seq<u8> {
    seq![s.version] + u32_be(s.guardian_set_index) + u32_be(s.timestamp) + u32_be(s.nonce)
        + u16_be(s.emitter_chain) + s.emitter_address + u64_be(s.sequence)
        + seq![s.consistency_level]
}

/// The full wire encoding of an envelope: header then payload.
pub open spec fn envelope_bytes(m: EnvelopeModel) -> Seq<u8> {
    summary_bytes(summary_of(m)) + m.payload
}

/// The envelope read from a byte sequence of at least the header length.
pub open spec fn envelope_of(b: Seq<u8>) -> EnvelopeModel
    recommends
        b.len() >= ENVELOPE_HEADER_LEN,
{
    EnvelopeModel {
        version: b[0],
        guardian_set_index: u32_of_be(b[1], b[2], b[3], b[4]),
        timestamp: u32_of_be(b[5], b[6], b[7], b[8]),
        nonce: u32_of_be(b[9], b[10], b[11], b[12]),
        emitter_chain: u16_of_be(b[13], b[14]),
        emitter_address: b.subrange(15, 47),
        sequence: u64_of_be(b[47], b[48], b[49], b[50], b[51], b[52], b[53], b[54]),
        consistency_level: b[55],
        payload: b.subrange(56, b.len() as int),
    }
}

/// Decodes an attestation envelope. Fails with `MalformedEnvelope` exactly
/// when the input is shorter than the fixed header; otherwise returns the
/// envelope whose fields and payload are read from the bytes.
pub fn decode_envelope(bytes: &Vec<u8>) -> (r: Result<Envelope, BridgeError>)
    ensures
        bytes@.len() < ENVELOPE_HEADER_LEN ==> r === Err(BridgeError::MalformedEnvelope),
        bytes@.len() >= ENVELOPE_HEADER_LEN ==> (r matches Ok(e) && e@ == envelope_of(bytes@)
            && e@.wf()),
{
    let len: usize = bytes.len();
    if len < ENVELOPE_HEADER_LEN {
        return Err(BridgeError::MalformedEnvelope);
    }
    let e = Envelope {
        version: bytes[0],
        guardian_set_index: read_u32_be(bytes, 1),
        timestamp: read_u32_be(bytes, 5),
        nonce: read_u32_be(bytes, 9),
        emitter_chain: read_u16_be(bytes, 13),
        emitter_address: read_bytes(bytes, 15, 32),
        sequence: read_u64_be(bytes, 47),
        consistency_level: bytes[55],
        payload: read_bytes(bytes, 56, len - 56),
    };
    proof {
        assert(e@ =~= envelope_of(bytes@));
    }
    Ok(e)
}

impl Envelope {
    /// Assembles the envelope-summary record for the action-construction
    /// routines: every field except the payload.
    pub fn summary(&self) -> (r: EnvelopeSummary)
        ensures
            r@ == summary_of(self@),
    {
        let r = EnvelopeSummary {
            version: self.version,
            guardian_set_index: self.guardian_set_index,
            timestamp: self.timestamp,
            nonce: self.nonce,
            emitter_chain: self.emitter_chain,
            emitter_address: crate::bytes::read_bytes(&self.emitter_address, 0, self.emitter_address.len()),
            sequence: self.sequence,
            consistency_level: self.consistency_level,
        };
        proof {
            assert(self.emitter_address@.subrange(0, self.emitter_address@.len() as int) =~= self.emitter_address@);
            assert(r@ =~= summary_of(self@));
        }
        r
    }
}

/// Re-encodes an envelope to its exact wire bytes.
pub fn encode_envelope(e: &Envelope) -> (r: Vec<u8>)
    ensures
        r@ == envelope_bytes(e@),
{
    let summary = e.summary();
    let mut out = encode_summary(&summary);
    push_bytes(&mut out, &e.payload);
    out
}

/// Encodes the envelope-summary record to the envelope's header bytes.
pub fn encode_summary(s: &EnvelopeSummary) -> (r: Vec<u8>)
    ensures
        r@ == summary_bytes(s@),
{
    let mut out: Vec<u8> = Vec::new();
    out.push(s.version);
    push_u32_be(&mut out, s.guardian_set_index);
    push_u32_be(&mut out, s.timestamp);
    push_u32_be(&mut out, s.nonce);
    push_u16_be(&mut out, s.emitter_chain);
    push_bytes(&mut out, &s.emitter_address);
    push_u64_be(&mut out, s.sequence);
    out.push(s.consistency_level);
    proof {
        assert(out@ =~= summary_bytes(s@));
    }
    out
}

/// Round trip in the other direction: encoding a well-formed envelope and
/// decoding the bytes yields the envelope back, so the encoding is injective
/// on well-formed envelopes.
pub proof fn lemma_envelope_model_round_trip(m: EnvelopeModel)
    requires
        m.wf(),
    ensures
        envelope_of(envelope_bytes(m)) == m,
{
    let b = envelope_bytes(m);
    assert(b.len() == 56 + m.payload.len());
    lemma_u32_be_round_trip(m.guardian_set_index);
    lemma_u32_be_round_trip(m.timestamp);
    lemma_u32_be_round_trip(m.nonce);
    lemma_u16_be_round_trip(m.emitter_chain);
    lemma_u64_be_round_trip(m.sequence);
    assert(b.subrange(15, 47) =~= m.emitter_address);
    assert(b.subrange(56, b.len() as int) =~= m.payload);
    assert(envelope_of(b) =~= m);
}

/// Round trip: decoding a byte sequence long enough to hold the header and
/// re-encoding the result reproduces the original bytes exactly.
pub proof fn lemma_envelope_round_trip(b: Seq<u8>)
    requires
        b.len() >= ENVELOPE_HEADER_LEN,
    ensures
        envelope_bytes(envelope_of(b)) == b,
{
    lemma_u32_of_be_round_trip(b[1], b[2], b[3], b[4]);
    lemma_u32_of_be_round_trip(b[5], b[6], b[7], b[8]);
    lemma_u32_of_be_round_trip(b[9], b[10], b[11], b[12]);
    lemma_u16_of_be_round_trip(b[13], b[14]);
    lemma_u64_of_be_round_trip(b[47], b[48], b[49], b[50], b[51], b[52], b[53], b[54]);
    assert(envelope_bytes(envelope_of(b)) =~= b);
}

} // verus!
