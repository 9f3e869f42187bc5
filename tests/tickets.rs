use vrf_tickets::backend::{padding_public_key, ring_params_from_seed, PublicKey, RingParams};
use vrf_tickets::error::VrfError;
use vrf_tickets::params::{load_ring_params, reference_lengths_ok, MAX_RING_SIZE, RING_SIZE};
use vrf_tickets::prover::Prover;
use vrf_tickets::ring::build_ring;
use vrf_tickets::signature::{frame_signature, split_signature, IetfVrfSignature, RingVrfSignature, OUTPUT_LEN};
use vrf_tickets::ticket::{index_seed, ticket_score, ticket_score_vec};
use vrf_tickets::verification::{verdict, Verifier};

const SMALL_RING: usize = 8;

fn small_params() -> RingParams {
    ring_params_from_seed(SMALL_RING, [7u8; 32])
}

fn small_ring(padded: &[usize]) -> Vec<PublicKey> {
    build_ring(SMALL_RING, &padded.to_vec(), &padding_public_key())
}

#[test]
fn ticket_score_is_the_first_32_bytes() {
    let hash: Vec<u8> = (0u8..64).collect();
    let score = ticket_score(&hash);
    assert_eq!(score.to_vec(), (0u8..32).collect::<Vec<u8>>());
    assert_eq!(ticket_score_vec(&hash), (0u8..32).collect::<Vec<u8>>());
}

#[test]
fn index_seed_is_little_endian() {
    assert_eq!(index_seed(0x0102), vec![2, 1, 0, 0, 0, 0, 0, 0]);
    assert_eq!(index_seed(3), 3u64.to_le_bytes().to_vec());
    assert_eq!(index_seed(u64::MAX), vec![0xff; 8]);
}

#[test]
fn split_refuses_bytes_shorter_than_an_output() {
    assert!(split_signature(&[0u8; 31]).is_none());
    assert!(split_signature(&[]).is_none());
    let (output, proof) = split_signature(&[5u8; 32]).unwrap();
    assert_eq!(output, vec![5u8; 32]);
    assert!(proof.is_empty());
}

#[test]
fn frame_then_split_round_trips() {
    let output: Vec<u8> = (0u8..OUTPUT_LEN as u8).collect();
    let proof: Vec<u8> = vec![9, 8, 7, 6];
    let framed = frame_signature(output.clone(), proof.clone());
    assert_eq!(framed.len(), 36);
    let (o, p) = split_signature(&framed).unwrap();
    assert_eq!(o, output);
    assert_eq!(p, proof);
    assert_eq!(frame_signature(o, p), framed);
}

#[test]
fn vrf_output_is_deterministic() {
    let ring = small_ring(&[]);
    let prover = Prover::new(ring.clone(), 3);
    let first = prover.vrf_output(b"foo").unwrap();
    let second = prover.vrf_output(b"foo").unwrap();
    assert_eq!(first.len(), 32);
    assert_eq!(first, second);
    let same_key = Prover::new(small_ring(&[1]), 3);
    assert_eq!(same_key.vrf_output(b"foo").unwrap(), first);
    assert_ne!(prover.vrf_output(b"bar").unwrap(), first);
    assert_ne!(Prover::new(ring, 4).vrf_output(b"foo").unwrap(), first);
}

#[test]
fn ietf_sign_then_verify_gives_the_vrf_output() {
    let params = small_params();
    let ring = small_ring(&[2, 7]);
    let prover = Prover::new(ring.clone(), 3);
    let verifier = Verifier::new(ring, &params);
    let sig = prover.ietf_vrf_sign(b"foo", b"hello").unwrap();
    let score = verifier.ietf_vrf_verify(b"foo", b"hello", &sig, 3).unwrap();
    assert_eq!(score.to_vec(), prover.vrf_output(b"foo").unwrap());
}

#[test]
fn ietf_signature_bytes_round_trip() {
    let prover = Prover::new(small_ring(&[]), 1);
    let sig = prover.ietf_vrf_sign(b"input", b"aux").unwrap();
    let decoded = IetfVrfSignature::from_bytes(&sig).unwrap();
    assert_eq!(decoded.to_bytes(), sig);
    assert_eq!(sig.len(), 96);
}

#[test]
fn ietf_verify_rejects_wrong_aux_data() {
    let params = small_params();
    let ring = small_ring(&[]);
    let prover = Prover::new(ring.clone(), 3);
    let verifier = Verifier::new(ring, &params);
    let sig = prover.ietf_vrf_sign(b"foo", b"hello").unwrap();
    assert_eq!(verifier.ietf_vrf_verify(b"foo", b"other", &sig, 3), Err(VrfError::InvalidProof));
    assert_eq!(verifier.ietf_vrf_verify(b"fox", b"hello", &sig, 3), Err(VrfError::InvalidProof));
}

#[test]
fn ietf_verify_rejects_wrong_signer_index() {
    let params = small_params();
    let ring = small_ring(&[2, 7]);
    let prover = Prover::new(ring.clone(), 3);
    let verifier = Verifier::new(ring, &params);
    let sig = prover.ietf_vrf_sign(b"foo", b"hello").unwrap();
    for index in [0usize, 1, 2, 4, 5, 6, 7] {
        assert_eq!(verifier.ietf_vrf_verify(b"foo", b"hello", &sig, index), Err(VrfError::InvalidProof));
    }
}

#[test]
fn ietf_verify_rejects_index_outside_the_ring() {
    let params = small_params();
    let ring = small_ring(&[]);
    let prover = Prover::new(ring.clone(), 3);
    let verifier = Verifier::new(ring, &params);
    let sig = prover.ietf_vrf_sign(b"foo", b"hello").unwrap();
    assert_eq!(verifier.ietf_vrf_verify(b"foo", b"hello", &sig, SMALL_RING), Err(VrfError::IndexOutOfRange));
    assert_eq!(verifier.ietf_vrf_verify(b"foo", b"hello", &sig[..10], SMALL_RING), Err(VrfError::MalformedSignature));
}

#[test]
fn verify_rejects_short_signatures_as_malformed() {
    let params = small_params();
    let ring = small_ring(&[]);
    let verifier = Verifier::new(ring, &params);
    assert_eq!(verifier.ietf_vrf_verify(b"foo", b"", &[0u8; 31], 0), Err(VrfError::MalformedSignature));
    assert_eq!(verifier.ring_vrf_verify(&params, b"foo", b"", &[0u8; 31]), Err(VrfError::MalformedSignature));
    assert_eq!(verifier.ietf_vrf_verify(b"foo", b"", &[], 0), Err(VrfError::MalformedSignature));
}

#[test]
fn tampered_ietf_signature_never_verifies() {
    let params = small_params();
    let ring = small_ring(&[]);
    let prover = Prover::new(ring.clone(), 5);
    let verifier = Verifier::new(ring, &params);
    let sig = prover.ietf_vrf_sign(b"foo", b"bar").unwrap();
    for i in 0..sig.len() {
        let mut bad = sig.clone();
        bad[i] ^= 0x01;
        let r = verifier.ietf_vrf_verify(b"foo", b"bar", &bad, 5);
        assert!(r == Err(VrfError::MalformedSignature) || r == Err(VrfError::InvalidProof), "byte {}", i);
    }
}

#[test]
fn ring_sign_then_verify_with_two_aux_values() {
    let params = small_params();
    let ring = small_ring(&[2, 7]);
    let prover = Prover::new(ring.clone(), 3);
    let verifier = Verifier::new(ring, &params);
    let sig1 = prover.ring_vrf_sign(&params, b"foo", b"bar").unwrap();
    let sig2 = prover.ring_vrf_sign(&params, b"foo", b"baz").unwrap();
    assert_ne!(sig1, sig2);
    let score1 = verifier.ring_vrf_verify(&params, b"foo", b"bar", &sig1).unwrap();
    let score2 = verifier.ring_vrf_verify(&params, b"foo", b"baz", &sig2).unwrap();
    assert_eq!(score1, score2);
    assert_eq!(score1.to_vec(), prover.vrf_output(b"foo").unwrap());
    assert_eq!(verifier.ring_vrf_verify(&params, b"foo", b"baz", &sig1), Err(VrfError::InvalidProof));
}

#[test]
fn ring_and_ietf_scores_agree() {
    let params = small_params();
    let ring = small_ring(&[2, 7]);
    let prover = Prover::new(ring.clone(), 3);
    let verifier = Verifier::new(ring, &params);
    let ring_sig = prover.ring_vrf_sign(&params, b"foo", b"bar").unwrap();
    let ietf_sig = prover.ietf_vrf_sign(b"foo", b"hello").unwrap();
    let ring_score = verifier.ring_vrf_verify(&params, b"foo", b"bar", &ring_sig).unwrap();
    let ietf_score = verifier.ietf_vrf_verify(b"foo", b"hello", &ietf_sig, 3).unwrap();
    assert_eq!(ring_score, ietf_score);
    assert_eq!(ring_sig[..OUTPUT_LEN], ietf_sig[..OUTPUT_LEN]);
    let decoded = RingVrfSignature::from_bytes(&ring_sig).unwrap();
    assert_eq!(decoded.to_bytes(), ring_sig);
}

#[test]
fn ring_verify_rejects_a_non_member() {
    let params = small_params();
    let ring = small_ring(&[3]);
    let prover = Prover::new(ring.clone(), 3);
    let verifier = Verifier::new(ring, &params);
    let sig = prover.ring_vrf_sign(&params, b"foo", b"bar").unwrap();
    assert_eq!(verifier.ring_vrf_verify(&params, b"foo", b"bar", &sig), Err(VrfError::InvalidProof));
}

#[test]
fn ring_sign_refuses_a_slot_outside_the_ring() {
    let params = small_params();
    let prover = Prover::new(small_ring(&[]), SMALL_RING);
    assert_eq!(prover.ring_vrf_sign(&params, b"foo", b"bar"), Err(VrfError::IndexOutOfRange));
}

#[test]
fn tampered_ring_signature_never_verifies() {
    let params = small_params();
    let ring = small_ring(&[]);
    let prover = Prover::new(ring.clone(), 1);
    let verifier = Verifier::new(ring, &params);
    let sig = prover.ring_vrf_sign(&params, b"foo", b"bar").unwrap();
    for i in [0usize, 31, 32, 100, sig.len() / 2, sig.len() - 1] {
        let mut bad = sig.clone();
        bad[i] ^= 0x80;
        let r = verifier.ring_vrf_verify(&params, b"foo", b"bar", &bad);
        assert!(r == Err(VrfError::MalformedSignature) || r == Err(VrfError::InvalidProof), "byte {}", i);
    }
}

#[test]
fn verdict_maps_a_failed_check_to_invalid_proof() {
    let prover = Prover::new(small_ring(&[]), 2);
    let sig = prover.ietf_vrf_sign(b"foo", b"").unwrap();
    let decoded = IetfVrfSignature::from_bytes(&sig).unwrap();
    assert_eq!(verdict(false, &decoded.output), Err(VrfError::InvalidProof));
    assert_eq!(verdict(true, &decoded.output).unwrap().to_vec(), prover.vrf_output(b"foo").unwrap());
}

#[test]
fn load_ring_params_refuses_a_bad_reference_string() {
    assert!(matches!(load_ring_params(RING_SIZE, &[1, 2, 3]), Err(VrfError::InitializationFailure)));
    assert!(matches!(load_ring_params(RING_SIZE, &[]), Err(VrfError::InitializationFailure)));
    assert!(matches!(load_ring_params(MAX_RING_SIZE + 1, &[0u8; 64]), Err(VrfError::InitializationFailure)));
    assert!(matches!(load_ring_params(usize::MAX, &[0u8; 64]), Err(VrfError::InitializationFailure)));
}

#[test]
fn padded_slots_hold_no_signer_key() {
    let params = small_params();
    let ring = small_ring(&[2, 7]);
    let verifier = Verifier::new(ring.clone(), &params);
    for slot in [2usize, 7] {
        let prover = Prover::new(ring.clone(), slot);
        let sig = prover.ietf_vrf_sign(b"foo", b"").unwrap();
        assert_eq!(verifier.ietf_vrf_verify(b"foo", b"", &sig, slot), Err(VrfError::InvalidProof));
    }
    let member = Prover::new(ring, 6);
    let sig = member.ietf_vrf_sign(b"foo", b"").unwrap();
    assert!(verifier.ietf_vrf_verify(b"foo", b"", &sig, 6).is_ok());
}

#[test]
fn full_ring_scenario_scores_match() {
    let params = ring_params_from_seed(RING_SIZE, [0u8; 32]);
    let ring = build_ring(RING_SIZE, &vec![2, 7], &padding_public_key());
    assert_eq!(ring.len(), 1023);
    let prover = Prover::new(ring.clone(), 3);
    let verifier = Verifier::new(ring, &params);
    let ring_sig = prover.ring_vrf_sign(&params, b"foo", b"bar").unwrap();
    let ring_score = verifier.ring_vrf_verify(&params, b"foo", b"bar", &ring_sig).unwrap();
    let ietf_sig = prover.ietf_vrf_sign(b"foo", b"hello").unwrap();
    let ietf_score = verifier.ietf_vrf_verify(b"foo", b"hello", &ietf_sig, 3).unwrap();
    assert_eq!(ring_score.len(), 32);
    assert_eq!(ring_score, ietf_score);
    assert_eq!(prover.vrf_output(b"foo").unwrap(), ietf_score.to_vec());
}

#[test]
fn reference_length_prefixes_must_fit_the_bytes() {
    assert!(!reference_lengths_ok(&[0xff; 8]));
    assert!(!reference_lengths_ok(&[0xff; 16]));
    assert!(!reference_lengths_ok(&[0u8; 15]));
    assert!(reference_lengths_ok(&[0u8; 16]));
    let mut one_g1 = vec![0u8; 16 + 96];
    one_g1[0] = 1;
    assert!(reference_lengths_ok(&one_g1));
    one_g1[0] = 2;
    assert!(!reference_lengths_ok(&one_g1));
    let mut one_g2 = vec![0u8; 16 + 192];
    one_g2[8] = 1;
    assert!(reference_lengths_ok(&one_g2));
    one_g2[9] = 1;
    assert!(!reference_lengths_ok(&one_g2));
}

#[test]
fn load_ring_params_refuses_overlong_length_prefixes() {
    assert!(matches!(load_ring_params(RING_SIZE, &[0xff; 8]), Err(VrfError::InitializationFailure)));
    assert!(matches!(load_ring_params(RING_SIZE, &[0xff; 64]), Err(VrfError::InitializationFailure)));
    assert!(matches!(load_ring_params(RING_SIZE, &[0u8; 16]), Err(VrfError::InitializationFailure)));
}

#[test]
fn ring_params_from_seed_cover_the_capacity() {
    let params = small_params();
    let ring = small_ring(&[]);
    let last = Prover::new(ring.clone(), SMALL_RING - 1);
    let verifier = Verifier::new(ring, &params);
    let sig = last.ring_vrf_sign(&params, b"edge", b"").unwrap();
    assert!(verifier.ring_vrf_verify(&params, b"edge", b"", &sig).is_ok());
}
