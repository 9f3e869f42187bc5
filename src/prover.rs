//! The prover: holds a secret key, its slot in the ring and the ring, and
//! signs VRF inputs anonymously (ring proof) or non-anonymously (IETF proof).
use vstd::prelude::*;
use crate::backend::{
    capacity_of, ietf_proof_encoding_of, ietf_proof_of, ietf_prove, input_point, input_point_of,
    output_encoding_of, output_hash, output_hash_of, output_of, ring_capacity, ring_prove,
    vrf_evaluate, PublicKey, RingParams, SecretKey, VrfOutput,
};
use crate::error::VrfError;
use crate::ring::{indexed_secret, secret_of_index};
use crate::signature::{signature_encoding, IetfVrfSignature, RingVrfSignature, OUTPUT_LEN};
use crate::ticket::{score_of, ticket_score_vec, SCORE_LEN};

verus! {

/// Whether anonymous signature bytes decode to an output equal to `output`,
/// written as its compressed encoding at the front.
pub open spec fn ring_signature_carries(sig: Seq<u8>, output: VrfOutput) -> bool {
    &&& RingVrfSignature::decoding(sig) matches Some((decoded, _)) && decoded == output
    &&& sig.len() >= OUTPUT_LEN
    &&& sig.subrange(0, OUTPUT_LEN as int) == output_encoding_of(output)
}

/// Whether non-anonymous signature bytes decode to an output equal to `output`,
/// written as its compressed encoding at the front.
pub open spec fn ietf_signature_carries(sig: Seq<u8>, output: VrfOutput) -> bool {
    &&& IetfVrfSignature::decoding(sig) matches Some((decoded, _)) && decoded == output
    &&& sig.len() >= OUTPUT_LEN
    &&& sig.subrange(0, OUTPUT_LEN as int) == output_encoding_of(output)
}

pub struct Prover {
    pub prover_idx: usize,
    pub secret: SecretKey,
    pub ring: Vec<PublicKey>,
}

impl Prover {
    /// A prover for slot `prover_idx` of `ring`, whose secret key is derived from
    /// the slot number.
    pub fn new(ring: Vec<PublicKey>, prover_idx: usize) -> (r: Self)
        ensures
            r.prover_idx == prover_idx,
            r.ring@ == ring@,
            r.secret == indexed_secret(prover_idx as u64),
    {
        Prover { prover_idx, secret: secret_of_index(prover_idx as u64), ring }
    }

    /// The VRF output of this prover's key on some input bytes, if they map to a point.
    pub open spec fn output_spec(&self, data: Seq<u8>) -> Option<VrfOutput> {
        match input_point_of(data) {
            Some(input) => Some(output_of(self.secret, input)),
            None => None,
        }
    }

    /// The ticket score of some input bytes, as `vrf_output` returns it.
    pub open spec fn vrf_output_spec(&self, data: Seq<u8>) -> Result<Seq<u8>, VrfError> {
        match self.output_spec(data) {
            Some(output) => Ok(score_of(output_hash_of(output))),
            None => Err(VrfError::InputNotMappable),
        }
    }

    /// Whether `sig` may be an anonymous signature of this prover on some input
    /// bytes: their output followed by some ring proof.
    pub open spec fn ring_sign_allows(&self, data: Seq<u8>, sig: Seq<u8>) -> bool {
        self.output_spec(data) matches Some(output) && ring_signature_carries(sig, output)
    }

    /// The non-anonymous signature bytes, as `ietf_vrf_sign` returns them.
    pub open spec fn ietf_sign_spec(&self, data: Seq<u8>, aux: Seq<u8>) -> Result<Seq<u8>, VrfError> {
        match input_point_of(data) {
            None => Err(VrfError::InputNotMappable),
            Some(input) => {
                let output = output_of(self.secret, input);
                let proof = ietf_proof_of(self.secret, input, output, aux);
                Ok(signature_encoding(output, proof, |p| ietf_proof_encoding_of(p)))
            },
        }
    }

    /// The VRF output hash truncated to the ticket score; no proof is made.
    pub fn vrf_output(&self, vrf_input_data: &[u8]) -> (r: Result<Vec<u8>, VrfError>)
        ensures
            match r {
                Ok(score) => self.vrf_output_spec(vrf_input_data@) == Ok::<Seq<u8>, VrfError>(score@),
                Err(e) => self.vrf_output_spec(vrf_input_data@) == Err::<Seq<u8>, VrfError>(e),
            },
            r matches Ok(score) ==> score@.len() == SCORE_LEN,
    {
        let input = match input_point(vrf_input_data) {
            Some(input) => input,
            None => return Err(VrfError::InputNotMappable),
        };
        let output = vrf_evaluate(&self.secret, &input);
        let hash = output_hash(&output);
        Ok(ticket_score_vec(&hash))
    }

    /// Anonymous VRF signature, used for ticket submission: the VRF output and a
    /// proof that some member of the ring made it, bound to `aux_data`.
    pub fn ring_vrf_sign(
        &self,
        params: &RingParams,
        vrf_input_data: &[u8],
        aux_data: &[u8],
    ) -> (r: Result<Vec<u8>, VrfError>)
        ensures
            self.output_spec(vrf_input_data@) is None
                ==> r == Err::<Vec<u8>, VrfError>(VrfError::InputNotMappable),
            self.output_spec(vrf_input_data@) is Some
                && (self.prover_idx >= self.ring@.len() || self.prover_idx >= capacity_of(*params))
                ==> r == Err::<Vec<u8>, VrfError>(VrfError::IndexOutOfRange),
            self.output_spec(vrf_input_data@) is Some && self.prover_idx < self.ring@.len()
                && self.prover_idx < capacity_of(*params) ==> r is Ok,
            r matches Ok(sig) ==> self.ring_sign_allows(vrf_input_data@, sig@),
    {
        let input = match input_point(vrf_input_data) {
            Some(input) => input,
            None => return Err(VrfError::InputNotMappable),
        };
        if self.prover_idx >= self.ring.len() || self.prover_idx >= ring_capacity(params) {
            return Err(VrfError::IndexOutOfRange);
        }
        let output = vrf_evaluate(&self.secret, &input);
        let proof = ring_prove(
            params,
            &self.ring,
            self.prover_idx,
            &self.secret,
            &input,
            &output,
            aux_data,
        );
        let signature = RingVrfSignature { output, proof };
        Ok(signature.to_bytes())
    }

    /// Non-anonymous VRF signature, used to claim a ticket: the VRF output and a
    /// proof that this prover's key made it, bound to `aux_data`.
    pub fn ietf_vrf_sign(
        &self,
        vrf_input_data: &[u8],
        aux_data: &[u8],
    ) -> (r: Result<Vec<u8>, VrfError>)
        ensures
            match r {
                Ok(sig) => self.ietf_sign_spec(vrf_input_data@, aux_data@) == Ok::<Seq<u8>, VrfError>(sig@),
                Err(e) => self.ietf_sign_spec(vrf_input_data@, aux_data@) == Err::<Seq<u8>, VrfError>(e),
            },
            r matches Ok(sig) ==> self.output_spec(vrf_input_data@) matches Some(output)
                && ietf_signature_carries(sig@, output),
    {
        let input = match input_point(vrf_input_data) {
            Some(input) => input,
            None => return Err(VrfError::InputNotMappable),
        };
        let output = vrf_evaluate(&self.secret, &input);
        let proof = ietf_prove(&self.secret, &input, &output, aux_data);
        let signature = IetfVrfSignature { output, proof };
        Ok(signature.to_bytes())
    }
}

/// The VRF output of a secret key on some input bytes does not depend on anything
/// else: two provers holding the same key give the same ticket score, call after
/// call, whatever their rings and slots.
pub proof fn lemma_vrf_output_deterministic(a: Prover, b: Prover, data: Seq<u8>)
    requires
        a.secret == b.secret,
    ensures
        a.output_spec(data) == b.output_spec(data),
        a.vrf_output_spec(data) == b.vrf_output_spec(data),
{
}

/// The non-anonymous and the anonymous signature of the same input bytes carry
/// the same VRF output, whatever auxiliary data each one binds: both decode to
/// it and both start with its encoding, and it is the output whose ticket score
/// `vrf_output` returns.
pub proof fn lemma_modes_share_output(
    prover: Prover,
    data: Seq<u8>,
    ietf_sig: Seq<u8>,
    ring_sig: Seq<u8>,
)
    requires
        prover.output_spec(data) matches Some(output) && ietf_signature_carries(ietf_sig, output),
        prover.ring_sign_allows(data, ring_sig),
    ensures
        prover.output_spec(data) matches Some(output) && {
            &&& IetfVrfSignature::decoding(ietf_sig) matches Some((o, _)) && o == output
            &&& RingVrfSignature::decoding(ring_sig) matches Some((o, _)) && o == output
            &&& ietf_sig.subrange(0, OUTPUT_LEN as int) == ring_sig.subrange(0, OUTPUT_LEN as int)
            &&& prover.vrf_output_spec(data) == Ok::<Seq<u8>, VrfError>(score_of(output_hash_of(output)))
        },
{
}

} // verus!
