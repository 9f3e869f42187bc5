//! Wire format of VRF signatures: the compressed output point followed by the
//! compressed proof.
use vstd::prelude::*;
use crate::backend::{
    decode_ietf_proof, decode_output, decode_ring_proof, encode_ietf_proof, encode_output,
    encode_ring_proof, ietf_proof_decoding_of, ietf_proof_encoding_of, output_decoding_of,
    output_encoding_of, ring_proof_decoding_of, ring_proof_encoding_of, IetfProof, RingProof,
    VrfOutput,
};

verus! {

/// Length of a compressed output point, the first field of every signature.
pub const OUTPUT_LEN: usize = 32;

/// Splits signature bytes into the output field and the proof field, if the
/// bytes are long enough to hold an output.
pub open spec fn split_spec(bytes: Seq<u8>) -> Option<(Seq<u8>, Seq<u8>)> {
    if bytes.len() < OUTPUT_LEN {
        None
    } else {
        Some((bytes.subrange(0, OUTPUT_LEN as int), bytes.subrange(OUTPUT_LEN as int, bytes.len() as int)))
    }
}

/// Framing an output field of the right length with any proof field, then
/// splitting, gives back both fields.
pub proof fn lemma_split_of_frame(output: Seq<u8>, proof: Seq<u8>)
    requires
        output.len() == OUTPUT_LEN,
    ensures
        split_spec(output + proof) == Some((output, proof)),
{
    assert((output + proof).subrange(0, OUTPUT_LEN as int) =~= output);
    assert((output + proof).subrange(OUTPUT_LEN as int, (output + proof).len() as int) =~= proof);
}

/// Splitting bytes, then framing the two fields, gives back the bytes.
pub proof fn lemma_frame_of_split(bytes: Seq<u8>)
    requires
        split_spec(bytes) is Some,
    ensures
        split_spec(bytes) matches Some((output, proof)) && output + proof == bytes,
{
    let output = bytes.subrange(0, OUTPUT_LEN as int);
    let proof = bytes.subrange(OUTPUT_LEN as int, bytes.len() as int);
    assert(output + proof =~= bytes);
}

/// Copies `bytes[start..end]` into a new vector.
fn copy_range(bytes: &[u8], start: usize, end: usize) -> (r: Vec<u8>)
    requires
        start <= end <= bytes@.len(),
    ensures
        r@ == bytes@.subrange(start as int, end as int),
{
    let mut r: Vec<u8> = Vec::new();
    let mut i: usize = start;
    while i < end
        invariant
            start <= i <= end,
            end <= bytes@.len(),
            r@ == bytes@.subrange(start as int, i as int),
        decreases end - i,
    {
        r.push(bytes[i]);
        i = i + 1;
        assert(r@ =~= bytes@.subrange(start as int, i as int));
    }
    r
}

/// Splits signature bytes into the output field and the proof field.
pub fn split_signature(bytes: &[u8]) -> (r: Option<(Vec<u8>, Vec<u8>)>)
    ensures
        r is None <==> split_spec(bytes@) is None,
        r matches Some((output, proof)) ==> split_spec(bytes@) == Some((output@, proof@)),
{
    if bytes.len() < OUTPUT_LEN {
        None
    } else {
        let output = copy_range(bytes, 0, OUTPUT_LEN);
        let proof = copy_range(bytes, OUTPUT_LEN, bytes.len());
        Some((output, proof))
    }
}

/// Writes the output field, then the proof field.
pub fn frame_signature(output: Vec<u8>, proof: Vec<u8>) -> (r: Vec<u8>)
    ensures
        r@ == output@ + proof@,
{
    let mut r = output;
    let mut rest = proof;
    r.append(&mut rest);
    r
}

/// The output and proof that signature bytes decode to, with a proof decoder.
pub open spec fn signature_decoding<P>(
    bytes: Seq<u8>,
    proof_decoding: spec_fn(Seq<u8>) -> Option<P>,
) -> Option<(VrfOutput, P)> {
    match split_spec(bytes) {
        None => None,
        Some((ob, pb)) => match (output_decoding_of(ob), proof_decoding(pb)) {
            (Some(o), Some(p)) => Some((o, p)),
            _ => None,
        },
    }
}

/// The bytes of a signature, with a proof encoder.
pub open spec fn signature_encoding<P>(
    output: VrfOutput,
    proof: P,
    proof_encoding: spec_fn(P) -> Seq<u8>,
) -> Seq<u8> {
    output_encoding_of(output) + proof_encoding(proof)
}

/// A non-anonymous VRF signature: the VRF output and the IETF proof of it.
pub struct IetfVrfSignature {
    pub output: VrfOutput,
    pub proof: IetfProof,
}

impl IetfVrfSignature {
    /// The bytes of this signature.
    pub open spec fn encoding(&self) -> Seq<u8> {
        signature_encoding(self.output, self.proof, |p: IetfProof| ietf_proof_encoding_of(p))
    }

    /// The output and proof that bytes decode to, if any.
    pub open spec fn decoding(bytes: Seq<u8>) -> Option<(VrfOutput, IetfProof)> {
        signature_decoding(bytes, |b: Seq<u8>| ietf_proof_decoding_of(b))
    }

    /// Encodes the signature in compressed canonical form.
    /// Decoding the result gives back this signature.
    pub fn to_bytes(&self) -> (r: Vec<u8>)
        ensures
            r@ == self.encoding(),
            r@.subrange(0, OUTPUT_LEN as int) == output_encoding_of(self.output),
            Self::decoding(r@) == Some((self.output, self.proof)),
    {
        let output = encode_output(&self.output);
        let proof = encode_ietf_proof(&self.proof);
        proof {
            lemma_split_of_frame(output@, proof@);
        }
        let r = frame_signature(output, proof);
        assert(r@.subrange(0, OUTPUT_LEN as int) =~= output_encoding_of(self.output));
        r
    }

    /// Decodes a signature from compressed canonical form.
    pub fn from_bytes(bytes: &[u8]) -> (r: Option<IetfVrfSignature>)
        ensures
            r is None <==> Self::decoding(bytes@) is None,
            r is Some ==> Self::decoding(bytes@) == Some((r->0.output, r->0.proof)),
    {
        let (ob, pb) = split_signature(bytes)?;
        let output = decode_output(ob.as_slice())?;
        let proof = decode_ietf_proof(pb.as_slice())?;
        Some(IetfVrfSignature { output, proof })
    }
}

/// An anonymous VRF signature: the VRF output and the ring proof of it.
pub struct RingVrfSignature {
    pub output: VrfOutput,
    pub proof: RingProof,
}

impl RingVrfSignature {
    /// The bytes of this signature.
    pub open spec fn encoding(&self) -> Seq<u8> {
        signature_encoding(self.output, self.proof, |p: RingProof| ring_proof_encoding_of(p))
    }

    /// The output and proof that bytes decode to, if any.
    pub open spec fn decoding(bytes: Seq<u8>) -> Option<(VrfOutput, RingProof)> {
        signature_decoding(bytes, |b: Seq<u8>| ring_proof_decoding_of(b))
    }

    /// Encodes the signature in compressed canonical form.
    /// Decoding the result gives back this signature.
    pub fn to_bytes(&self) -> (r: Vec<u8>)
        ensures
            r@ == self.encoding(),
            r@.subrange(0, OUTPUT_LEN as int) == output_encoding_of(self.output),
            Self::decoding(r@) == Some((self.output, self.proof)),
    {
        let output = encode_output(&self.output);
        let proof = encode_ring_proof(&self.proof);
        proof {
            lemma_split_of_frame(output@, proof@);
        }
        let r = frame_signature(output, proof);
        assert(r@.subrange(0, OUTPUT_LEN as int) =~= output_encoding_of(self.output));
        r
    }

    /// Decodes a signature from compressed canonical form.
    pub fn from_bytes(bytes: &[u8]) -> (r: Option<RingVrfSignature>)
        ensures
            r is None <==> Self::decoding(bytes@) is None,
            r is Some ==> Self::decoding(bytes@) == Some((r->0.output, r->0.proof)),
    {
        let (ob, pb) = split_signature(bytes)?;
        let output = decode_output(ob.as_slice())?;
        let proof = decode_ring_proof(pb.as_slice())?;
        Some(RingVrfSignature { output, proof })
    }
}

} // verus!
