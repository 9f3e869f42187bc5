//! The verifier: holds the ring and a commitment to it, checks signatures of
//! both kinds and recovers the ticket score.
use vstd::prelude::*;
use crate::backend::{
    commitment_of, ietf_accepts, ietf_check, input_point, input_point_of, output_hash,
    output_hash_of, ring_accepts, ring_check, ring_commitment, PublicKey, RingKeyCommitment,
    RingParams, VrfOutput,
};
use crate::error::VrfError;
use crate::prover::{ietf_signature_carries, Prover};
use crate::signature::{IetfVrfSignature, RingVrfSignature, OUTPUT_LEN};
use crate::ticket::{score_of, ticket_score};

verus! {

/// The outcome of a verification whose proof check gave `accepted`.
pub open spec fn verdict_spec(accepted: bool, output: VrfOutput) -> Result<Seq<u8>, VrfError> {
    if accepted {
        Ok(score_of(output_hash_of(output)))
    } else {
        Err(VrfError::InvalidProof)
    }
}

/// A score result seen as a sequence of bytes.
pub open spec fn score_result_view(r: Result<[u8; 32], VrfError>) -> Result<Seq<u8>, VrfError> {
    match r {
        Ok(score) => Ok(score@),
        Err(e) => Err(e),
    }
}

/// Turns the result of a proof check into the outcome of verification: the
/// ticket score of the output where the proof checks out, `InvalidProof` where
/// it does not.
pub fn verdict(accepted: bool, output: &VrfOutput) -> (r: Result<[u8; 32], VrfError>)
    ensures
        score_result_view(r) == verdict_spec(accepted, *output),
{
    if !accepted {
        return Err(VrfError::InvalidProof);
    }
    let hash = output_hash(output);
    Ok(ticket_score(&hash))
}

pub struct Verifier {
    pub commitment: RingKeyCommitment,
    pub ring: Vec<PublicKey>,
}

impl Verifier {
    /// A verifier for `ring`; the commitment to the ring is computed once here.
    pub fn new(ring: Vec<PublicKey>, params: &RingParams) -> (r: Self)
        ensures
            r.ring@ == ring@,
            r.commitment == commitment_of(*params, ring@),
    {
        let commitment = ring_commitment(params, &ring);
        Verifier { commitment, ring }
    }

    /// The outcome of `ietf_vrf_verify`.
    pub open spec fn ietf_verify_spec(
        &self,
        data: Seq<u8>,
        aux: Seq<u8>,
        sig: Seq<u8>,
        signer: int,
    ) -> Result<Seq<u8>, VrfError> {
        match IetfVrfSignature::decoding(sig) {
            None => Err(VrfError::MalformedSignature),
            Some((output, proof)) => if signer >= self.ring@.len() {
                Err(VrfError::IndexOutOfRange)
            } else {
                match input_point_of(data) {
                    None => Err(VrfError::InputNotMappable),
                    Some(input) => verdict_spec(
                        ietf_accepts(self.ring@[signer], input, output, aux, proof),
                        output,
                    ),
                }
            },
        }
    }

    /// The outcome of `ring_vrf_verify` with some ring proof parameters.
    pub open spec fn ring_verify_spec(
        &self,
        params: RingParams,
        data: Seq<u8>,
        aux: Seq<u8>,
        sig: Seq<u8>,
    ) -> Result<Seq<u8>, VrfError> {
        match RingVrfSignature::decoding(sig) {
            None => Err(VrfError::MalformedSignature),
            Some((output, proof)) => match input_point_of(data) {
                None => Err(VrfError::InputNotMappable),
                Some(input) => verdict_spec(
                    ring_accepts(params, self.commitment, input, output, aux, proof),
                    output,
                ),
            },
        }
    }

    /// Anonymous VRF signature verification, used for ticket verification: the
    /// proof is checked against the ring commitment, without learning the signer.
    /// On success returns the ticket score.
    pub fn ring_vrf_verify(
        &self,
        params: &RingParams,
        vrf_input_data: &[u8],
        aux_data: &[u8],
        signature: &[u8],
    ) -> (r: Result<[u8; 32], VrfError>)
        ensures
            score_result_view(r) == self.ring_verify_spec(*params, vrf_input_data@, aux_data@, signature@),
    {
        let signature = match RingVrfSignature::from_bytes(signature) {
            Some(signature) => signature,
            None => return Err(VrfError::MalformedSignature),
        };
        let input = match input_point(vrf_input_data) {
            Some(input) => input,
            None => return Err(VrfError::InputNotMappable),
        };
        // The verifier key is rebuilt from the cached commitment, which is much
        // cheaper than deriving it from the ring again.
        let accepted = ring_check(
            params,
            &self.commitment,
            &input,
            &signature.output,
            aux_data,
            &signature.proof,
        );
        verdict(accepted, &signature.output)
    }

    /// Non-anonymous VRF signature verification, used for ticket claims: the
    /// proof is checked against the public key in slot `signer_key_index`.
    /// On success returns the ticket score.
    pub fn ietf_vrf_verify(
        &self,
        vrf_input_data: &[u8],
        aux_data: &[u8],
        signature: &[u8],
        signer_key_index: usize,
    ) -> (r: Result<[u8; 32], VrfError>)
        ensures
            score_result_view(r) == self.ietf_verify_spec(
                vrf_input_data@,
                aux_data@,
                signature@,
                signer_key_index as int,
            ),
    {
        let signature = match IetfVrfSignature::from_bytes(signature) {
            Some(signature) => signature,
            None => return Err(VrfError::MalformedSignature),
        };
        if signer_key_index >= self.ring.len() {
            return Err(VrfError::IndexOutOfRange);
        }
        let input = match input_point(vrf_input_data) {
            Some(input) => input,
            None => return Err(VrfError::InputNotMappable),
        };
        let public = &self.ring[signer_key_index];
        let accepted = ietf_check(public, &input, &signature.output, aux_data, &signature.proof);
        verdict(accepted, &signature.output)
    }
}

/// The ticket score that verification returns depends on the output field of the
/// signature alone: an anonymous and a non-anonymous signature with the same
/// output field that both verify give the same score, whatever auxiliary data
/// each one binds and whichever slot the second one names.
pub proof fn lemma_scores_follow_output_field(
    verifier: Verifier,
    params: RingParams,
    data: Seq<u8>,
    ring_aux: Seq<u8>,
    ietf_aux: Seq<u8>,
    ring_sig: Seq<u8>,
    ietf_sig: Seq<u8>,
    signer: int,
    ring_score: Seq<u8>,
    ietf_score: Seq<u8>,
)
    requires
        verifier.ring_verify_spec(params, data, ring_aux, ring_sig) == Ok::<Seq<u8>, VrfError>(ring_score),
        verifier.ietf_verify_spec(data, ietf_aux, ietf_sig, signer) == Ok::<Seq<u8>, VrfError>(ietf_score),
        ring_sig.len() >= OUTPUT_LEN,
        ietf_sig.len() >= OUTPUT_LEN,
        ring_sig.subrange(0, OUTPUT_LEN as int) == ietf_sig.subrange(0, OUTPUT_LEN as int),
    ensures
        ring_score == ietf_score,
{
}

/// Signatures of one prover on one input, one of each kind, that both verify give
/// the ticket score that `vrf_output` returns for that input, whatever auxiliary
/// data each one binds.
pub proof fn lemma_verified_scores_match_vrf_output(
    prover: Prover,
    verifier: Verifier,
    params: RingParams,
    data: Seq<u8>,
    ring_aux: Seq<u8>,
    ietf_aux: Seq<u8>,
    ring_sig: Seq<u8>,
    ietf_sig: Seq<u8>,
    signer: int,
    ring_score: Seq<u8>,
    ietf_score: Seq<u8>,
)
    requires
        prover.ring_sign_allows(data, ring_sig),
        prover.output_spec(data) matches Some(output) && ietf_signature_carries(ietf_sig, output),
        verifier.ring_verify_spec(params, data, ring_aux, ring_sig) == Ok::<Seq<u8>, VrfError>(ring_score),
        verifier.ietf_verify_spec(data, ietf_aux, ietf_sig, signer) == Ok::<Seq<u8>, VrfError>(ietf_score),
    ensures
        ring_score == ietf_score,
        prover.vrf_output_spec(data) == Ok::<Seq<u8>, VrfError>(ring_score),
{
}

} // verus!
