//! Errors of the VRF operations.
use vstd::prelude::*;

verus! {

/// Why a VRF operation did not complete.
#[derive(Debug, Clone, Copy, PartialEq, Eq, Structural)]
pub enum VrfError {
    /// The reference string is missing, unreadable or too short for the ring
    /// capacity.
    InitializationFailure,
    /// Hash-to-curve gave no point for the VRF input bytes.
    InputNotMappable,
    /// The signature bytes do not decode to an output and a proof.
    MalformedSignature,
    /// The signature decoded, but its proof does not check out.
    InvalidProof,
    /// The signer index lies outside the ring.
    IndexOutOfRange,
}

} // verus!
