//! Translation layer of a cross-chain token bridge: decodes a signed
//! attestation envelope, decodes its payload into one of four typed schemas,
//! derives the deterministic replay-protection address, and assembles the
//! action descriptor for the requested on-chain action.
use vstd::prelude::*;

pub mod action;
pub mod bytes;
pub mod dispatch;
pub mod envelope;
pub mod payload;
pub mod replay;

verus! {

/// Errors surfaced by every entry point of this crate.
#[derive(Clone, Copy, Debug, PartialEq, Eq, Structural)]
pub enum BridgeError {
    /// A caller-supplied address is not a valid 32-byte platform address.
    InvalidAddress,
    /// The attestation bytes are shorter than the fixed envelope header.
    MalformedEnvelope,
    /// The payload byte count does not match the expected schema's width.
    PayloadLengthMismatch,
    /// The payload's leading tag byte does not match the expected variant.
    InvalidDiscriminator,
    /// The action-construction step rejected a well-typed argument set.
    ActionConstructionFailed,
}

} // verus!
