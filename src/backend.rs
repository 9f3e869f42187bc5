//! The elliptic-curve backend: the Bandersnatch suite of `ark_vrf`.
//!
//! Every call into `ark_vrf` goes through an item of this module. Values of the
//! backend (keys, points, proofs, ring parameters) are opaque to the proofs: they
//! are carried through, and what a backend call returns is named by a spec
//! function where it depends on its arguments alone.
use vstd::prelude::*;
use crate::params::MAX_RING_SIZE;
use crate::signature::OUTPUT_LEN;

verus! {

/// The cipher suite: Bandersnatch with SHA-512 and Elligator 2 hash-to-curve.
pub type Curve = ark_vrf::suites::bandersnatch::BandersnatchSha512Ell2;

/// A secret key: a scalar and its public key.
#[verifier::external_body]
pub struct SecretKey {
    inner: ark_vrf::Secret<Curve>,
}

/// A public key, or the padding point in an unused ring slot.
#[verifier::external_body]
pub struct PublicKey {
    inner: ark_vrf::Public<Curve>,
}

/// A VRF input point.
#[verifier::external_body]
pub struct VrfInput {
    inner: ark_vrf::Input<Curve>,
}

/// A VRF output point.
#[verifier::external_body]
pub struct VrfOutput {
    inner: ark_vrf::Output<Curve>,
}

/// A non-anonymous (IETF) VRF proof.
#[verifier::external_body]
pub struct IetfProof {
    inner: ark_vrf::ietf::Proof<Curve>,
}

/// A ring VRF proof: a Pedersen proof and a ring membership proof.
#[verifier::external_body]
pub struct RingProof {
    inner: ark_vrf::ring::Proof<Curve>,
}

/// Ring proof parameters: the structured reference string cut to a ring capacity.
#[verifier::external_body]
pub struct RingParams {
    inner: ark_vrf::ring::RingProofParams<Curve>,
}

/// A KZG reference string, as read from its serialized form.
#[verifier::external_body]
pub struct ReferenceString {
    inner: ark_vrf::ring::PcsParams<Curve>,
}

/// A commitment to the ordered public keys of a ring, from which a ring verifier
/// key is rebuilt cheaply.
#[verifier::external_body]
pub struct RingKeyCommitment {
    inner: ark_vrf::ring::RingCommitment<Curve>,
}

impl Clone for PublicKey {
    /// Relies on the derived `Copy` of ark_vrf::Public: the copy is the same point.
    #[verifier::external_body]
    fn clone(&self) -> (r: Self)
        ensures
            r == *self,
    {
        PublicKey { inner: self.inner }
    }
}

impl Clone for VrfInput {
    /// Relies on the derived `Copy` of ark_vrf::Input: the copy is the same point.
    #[verifier::external_body]
    fn clone(&self) -> (r: Self)
        ensures
            r == *self,
    {
        VrfInput { inner: self.inner }
    }
}

impl Clone for VrfOutput {
    /// Relies on the derived `Copy` of ark_vrf::Output: the copy is the same point.
    #[verifier::external_body]
    fn clone(&self) -> (r: Self)
        ensures
            r == *self,
    {
        VrfOutput { inner: self.inner }
    }
}

/// The point that hash-to-curve gives for some bytes, if any.
pub uninterp spec fn input_point_of(data: Seq<u8>) -> Option<VrfInput>;

/// The secret key derived from a seed.
pub uninterp spec fn secret_of_seed(seed: Seq<u8>) -> SecretKey;

/// The public key of a secret key.
pub uninterp spec fn public_of(secret: SecretKey) -> PublicKey;

/// The VRF output of a secret key on an input point.
pub uninterp spec fn output_of(secret: SecretKey, input: VrfInput) -> VrfOutput;

/// The hash of a VRF output.
pub uninterp spec fn output_hash_of(output: VrfOutput) -> Seq<u8>;

/// The compressed canonical encoding of a VRF output.
pub uninterp spec fn output_encoding_of(output: VrfOutput) -> Seq<u8>;

/// The VRF output that a compressed encoding decodes to, if any.
pub uninterp spec fn output_decoding_of(bytes: Seq<u8>) -> Option<VrfOutput>;

/// The compressed canonical encoding of a non-anonymous proof.
pub uninterp spec fn ietf_proof_encoding_of(proof: IetfProof) -> Seq<u8>;

/// The non-anonymous proof that a compressed encoding decodes to, if any.
pub uninterp spec fn ietf_proof_decoding_of(bytes: Seq<u8>) -> Option<IetfProof>;

/// The compressed canonical encoding of a ring proof.
pub uninterp spec fn ring_proof_encoding_of(proof: RingProof) -> Seq<u8>;

/// The ring proof that a compressed encoding decodes to, if any.
pub uninterp spec fn ring_proof_decoding_of(bytes: Seq<u8>) -> Option<RingProof>;

/// The non-anonymous proof of a secret key for an input, output and auxiliary data.
pub uninterp spec fn ietf_proof_of(
    secret: SecretKey,
    input: VrfInput,
    output: VrfOutput,
    aux: Seq<u8>,
) -> IetfProof;

/// The number of ring slots that ring proof parameters provide.
pub uninterp spec fn capacity_of(params: RingParams) -> nat;

/// The commitment to a ring that ring proof parameters give.
pub uninterp spec fn commitment_of(params: RingParams, ring: Seq<PublicKey>) -> RingKeyCommitment;

/// Whether a ring proof checks out against a ring commitment, for an input,
/// output and auxiliary data.
pub uninterp spec fn ring_accepts(
    params: RingParams,
    commitment: RingKeyCommitment,
    input: VrfInput,
    output: VrfOutput,
    aux: Seq<u8>,
    proof: RingProof,
) -> bool;

/// Whether a non-anonymous proof checks out for a public key, input, output and
/// auxiliary data.
pub uninterp spec fn ietf_accepts(
    public: PublicKey,
    input: VrfInput,
    output: VrfOutput,
    aux: Seq<u8>,
    proof: IetfProof,
) -> bool;

/// The reference string that serialized bytes decode to (uncompressed, unchecked), if any.
pub uninterp spec fn reference_decoding_of(bytes: Seq<u8>) -> Option<ReferenceString>;

/// The ring proof parameters for a ring capacity built from a reference string,
/// if the string is long enough.
pub uninterp spec fn params_from_reference_of(ring_size: nat, srs: ReferenceString) -> Option<RingParams>;

/// Relies on ark_vrf::Input::new: hash-to-curve of the bytes (Elligator 2), which
/// depends on the bytes alone and may report a failure.
#[verifier::external_body]
pub(crate) fn input_point(data: &[u8]) -> (r: Option<VrfInput>)
    ensures
        r == input_point_of(data@),
{
    ark_vrf::Input::new(data).map(|inner| VrfInput { inner })
}

/// Relies on ark_vrf::Secret::from_seed: the secret scalar is hashed from the seed.
#[verifier::external_body]
pub(crate) fn secret_from_seed(seed: &[u8]) -> (r: SecretKey)
    ensures
        r == secret_of_seed(seed@),
{
    SecretKey { inner: ark_vrf::Secret::from_seed(seed) }
}

/// Relies on ark_vrf::Secret::public: the public key stored beside the scalar.
#[verifier::external_body]
pub(crate) fn public_key(secret: &SecretKey) -> (r: PublicKey)
    ensures
        r == public_of(*secret),
{
    PublicKey { inner: secret.inner.public() }
}

/// Relies on ark_vrf::Secret::output: the input point multiplied by the secret scalar.
#[verifier::external_body]
pub(crate) fn vrf_evaluate(secret: &SecretKey, input: &VrfInput) -> (r: VrfOutput)
    ensures
        r == output_of(*secret, *input),
{
    VrfOutput { inner: secret.inner.output(input.inner) }
}

/// Relies on ark_vrf::Output::hash: the SHA-512 hash of the encoded output point,
/// 64 bytes long.
#[verifier::external_body]
pub(crate) fn output_hash(output: &VrfOutput) -> (r: Vec<u8>)
    ensures
        r@ == output_hash_of(*output),
        r@.len() == 64,
{
    output.inner.hash().to_vec()
}

/// Relies on ark_serialize's CanonicalSerialize::serialize_compressed for
/// ark_vrf::Output: a Bandersnatch point compresses to 32 bytes, writing into a
/// vector does not fail, and the compressed form of a point of the prime-order
/// subgroup (every output this library holds) decodes back to that point.
#[verifier::external_body]
pub(crate) fn encode_output(output: &VrfOutput) -> (r: Vec<u8>)
    ensures
        r@ == output_encoding_of(*output),
        r@.len() == OUTPUT_LEN,
        output_decoding_of(r@) == Some(*output),
{
    let mut buf = Vec::new();
    ark_vrf::reexports::ark_serialize::CanonicalSerialize::serialize_compressed(&output.inner, &mut buf)
        .expect("writing into a vector");
    buf
}

/// Relies on ark_serialize's CanonicalDeserialize::deserialize_compressed for
/// ark_vrf::Output, which reads a compressed point and validates it.
#[verifier::external_body]
pub(crate) fn decode_output(bytes: &[u8]) -> (r: Option<VrfOutput>)
    ensures
        r == output_decoding_of(bytes@),
{
    let read = <ark_vrf::Output<Curve> as ark_vrf::reexports::ark_serialize::CanonicalDeserialize>::deserialize_compressed(bytes);
    read.ok().map(|inner| VrfOutput { inner })
}

/// Relies on ark_serialize's CanonicalSerialize::serialize_compressed for
/// ark_vrf::ietf::Proof: the challenge in its 32 bytes (a scalar encodes in 32),
/// then the response scalar; this reads back as the same proof.
#[verifier::external_body]
pub(crate) fn encode_ietf_proof(proof: &IetfProof) -> (r: Vec<u8>)
    ensures
        r@ == ietf_proof_encoding_of(*proof),
        ietf_proof_decoding_of(r@) == Some(*proof),
{
    let mut buf = Vec::new();
    ark_vrf::reexports::ark_serialize::CanonicalSerialize::serialize_compressed(&proof.inner, &mut buf)
        .expect("writing into a vector");
    buf
}

/// Relies on ark_serialize's CanonicalDeserialize::deserialize_compressed for
/// ark_vrf::ietf::Proof.
#[verifier::external_body]
pub(crate) fn decode_ietf_proof(bytes: &[u8]) -> (r: Option<IetfProof>)
    ensures
        r == ietf_proof_decoding_of(bytes@),
{
    let read = <ark_vrf::ietf::Proof<Curve> as ark_vrf::reexports::ark_serialize::CanonicalDeserialize>::deserialize_compressed(bytes);
    read.ok().map(|inner| IetfProof { inner })
}

/// Relies on ark_serialize's CanonicalSerialize::serialize_compressed for
/// ark_vrf::ring::Proof: the Pedersen proof, then the ring proof, all of
/// fixed-size fields; this reads back as the same proof.
#[verifier::external_body]
pub(crate) fn encode_ring_proof(proof: &RingProof) -> (r: Vec<u8>)
    ensures
        r@ == ring_proof_encoding_of(*proof),
        ring_proof_decoding_of(r@) == Some(*proof),
{
    let mut buf = Vec::new();
    ark_vrf::reexports::ark_serialize::CanonicalSerialize::serialize_compressed(&proof.inner, &mut buf)
        .expect("writing into a vector");
    buf
}

/// Relies on ark_serialize's CanonicalDeserialize::deserialize_compressed for
/// ark_vrf::ring::Proof.
#[verifier::external_body]
pub(crate) fn decode_ring_proof(bytes: &[u8]) -> (r: Option<RingProof>)
    ensures
        r == ring_proof_decoding_of(bytes@),
{
    let read = <ark_vrf::ring::Proof<Curve> as ark_vrf::reexports::ark_serialize::CanonicalDeserialize>::deserialize_compressed(bytes);
    read.ok().map(|inner| RingProof { inner })
}

/// Relies on ark_vrf::ietf::Prover::prove for ark_vrf::Secret: a Schnorr-like
/// proof whose nonce is derived from the key and the input.
#[verifier::external_body]
pub(crate) fn ietf_prove(
    secret: &SecretKey,
    input: &VrfInput,
    output: &VrfOutput,
    aux: &[u8],
) -> (r: IetfProof)
    ensures
        r == ietf_proof_of(*secret, *input, *output, aux@),
{
    let inner = ark_vrf::ietf::Prover::prove(&secret.inner, input.inner, output.inner, aux);
    IetfProof { inner }
}

/// Relies on ark_vrf::ietf::Verifier::verify for ark_vrf::Public, which recomputes
/// the challenge from the points and the auxiliary data and compares it.
#[verifier::external_body]
pub(crate) fn ietf_check(
    public: &PublicKey,
    input: &VrfInput,
    output: &VrfOutput,
    aux: &[u8],
    proof: &IetfProof,
) -> (r: bool)
    ensures
        r == ietf_accepts(*public, *input, *output, aux@, *proof),
{
    let checked = ark_vrf::ietf::Verifier::verify(&public.inner, input.inner, output.inner, aux, &proof.inner);
    checked.is_ok()
}

/// Relies on ark_vrf::ring::Prover::prove for ark_vrf::Secret, with the prover
/// that RingProofParams::prover_key and RingProofParams::prover of
/// ark_vrf::ring make for one slot of the ring (its points, up to the capacity).
/// The prover must come from the same parameters as its key, and the slot must
/// lie within the capacity.
#[verifier::external_body]
pub(crate) fn ring_prove(
    params: &RingParams,
    ring: &Vec<PublicKey>,
    slot: usize,
    secret: &SecretKey,
    input: &VrfInput,
    output: &VrfOutput,
    aux: &[u8],
) -> (r: RingProof)
    requires
        slot < capacity_of(*params),
{
    let points: Vec<_> = ring.iter().map(|pk| pk.inner.0).collect();
    let prover = params.inner.prover(params.inner.prover_key(&points), slot);
    let inner = ark_vrf::ring::Prover::prove(&secret.inner, input.inner, output.inner, aux, &prover);
    RingProof { inner }
}

/// Relies on RingProofParams::verifier_key of ark_vrf::ring (the ring's points, up
/// to the capacity) and on the commitment that the verifier key holds.
#[verifier::external_body]
pub(crate) fn ring_commitment(params: &RingParams, ring: &Vec<PublicKey>) -> (r: RingKeyCommitment)
    ensures
        r == commitment_of(*params, ring@),
{
    let points: Vec<_> = ring.iter().map(|pk| pk.inner.0).collect();
    RingKeyCommitment { inner: params.inner.verifier_key(&points).commitment() }
}

/// Relies on ark_vrf::ring::Verifier::verify for ark_vrf::Public, with the verifier
/// that RingProofParams::verifier_key_from_commitment and RingProofParams::verifier
/// rebuild from the commitment; its challenges come from the transcript, so the
/// outcome depends on the arguments alone.
#[verifier::external_body]
pub(crate) fn ring_check(
    params: &RingParams,
    commitment: &RingKeyCommitment,
    input: &VrfInput,
    output: &VrfOutput,
    aux: &[u8],
    proof: &RingProof,
) -> (r: bool)
    ensures
        r == ring_accepts(*params, *commitment, *input, *output, aux@, *proof),
{
    let key = params.inner.verifier_key_from_commitment(commitment.inner.clone());
    let verifier = params.inner.verifier(key);
    let checked = <ark_vrf::Public<Curve> as ark_vrf::ring::Verifier<Curve>>::verify(
        input.inner,
        output.inner,
        aux,
        &proof.inner,
        &verifier,
    );
    checked.is_ok()
}

/// Relies on RingProofParams::max_ring_size of ark_vrf::ring: the number of ring
/// slots that the parameters provide.
#[verifier::external_body]
pub(crate) fn ring_capacity(params: &RingParams) -> (r: usize)
    ensures
        r == capacity_of(*params),
{
    params.inner.max_ring_size()
}

/// Relies on RingProofParams::padding_point of ark_vrf::ring: the suite's fixed
/// padding point, taken as a public key.
#[verifier::external_body]
pub fn padding_public_key() -> (r: PublicKey) {
    PublicKey { inner: ark_vrf::Public::from(ark_vrf::ring::RingProofParams::<Curve>::padding_point()) }
}

/// Relies on ark_vrf::ring::RingProofParams::from_seed: parameters for a ring of
/// the given capacity (or more: the domain is a power of two), from a reference
/// string drawn from the seed. Meant for tests and local setups.
#[verifier::external_body]
pub fn ring_params_from_seed(ring_size: usize, seed: [u8; 32]) -> (r: RingParams)
    requires
        ring_size <= MAX_RING_SIZE,
    ensures
        capacity_of(r) >= ring_size,
{
    RingParams { inner: ark_vrf::ring::RingProofParams::from_seed(ring_size, seed) }
}

/// Relies on ark_serialize's CanonicalDeserialize::deserialize_uncompressed_unchecked
/// for the KZG reference string of ark_vrf::ring: two vectors of points, each
/// with a 64-bit length in front. The vector reader reserves room for the length
/// it reads, so the lengths must fit the bytes.
#[verifier::external_body]
pub(crate) fn reference_string_from_bytes(bytes: &[u8]) -> (r: Option<ReferenceString>)
    requires
        crate::params::reference_lengths_fit(bytes@),
    ensures
        r == reference_decoding_of(bytes@),
{
    let read = <ark_vrf::ring::PcsParams<Curve> as ark_vrf::reexports::ark_serialize::CanonicalDeserialize>::deserialize_uncompressed_unchecked(bytes);
    read.ok().map(|inner| ReferenceString { inner })
}

/// Relies on RingProofParams::from_pcs_params of ark_vrf::ring, which refuses a
/// reference string too short for the ring capacity; the parameters it builds
/// provide at least that many slots (the domain is a power of two).
#[verifier::external_body]
pub(crate) fn ring_params_from_reference(ring_size: usize, srs: ReferenceString) -> (r: Option<RingParams>)
    requires
        ring_size <= MAX_RING_SIZE,
    ensures
        r == params_from_reference_of(ring_size as nat, srs),
        r matches Some(p) ==> capacity_of(p) >= ring_size,
{
    let params = ark_vrf::ring::RingProofParams::from_pcs_params(ring_size, srs.inner);
    params.ok().map(|inner| RingParams { inner })
}

} // verus!
