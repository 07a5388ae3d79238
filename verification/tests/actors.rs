use ark_vrf::reexports::ark_serialize::CanonicalSerialize;
use ark_vrf::suites::bandersnatch::{Input, RingProofParams, Secret};
use bandersnatch_vrfs::bandersnatch_vrfs::{
    same_bytes, Prover, Verifier, VerifyError, TICKET_LEN,
};
use bandersnatch_vrfs::ffi::checked_ring;
use bandersnatch_vrfs::keys::{CPublic, Public};
use bandersnatch_vrfs::ring_context::RingContext;

const TICKET: &str = "2c8113f15919cc59dc33911fdb39da3ad55be485440a5f9fdb730d77b74f29c9";

const IETF_SIGNATURE: &str = "b9f9993406441199f3f76cd561a56e6c27f00b66b8f69278b36f5db81cfb4ac3\
c031eaba3d086dc527d056316442ce13d8f19e82c1642f2c5ee8e2b06f675f16\
1d9b1e06126b713355f1fe8ee31ffaec40b0e9f6eaef75c13f3be3549b256605";

const COMMITMENT: &str = "98e7833e29896302097c2aa95de8e03bb9a90a5107c671e5574c9f46ec3ff8a5\
a8afdabf7056d5205140009cf5f4ac18b2e07366a90b9b82964919952d1650df\
d2b34fb83fac1f58e9e00711488f4451e0369de0bc6013c8943f958226d5d31b\
afc4869b70f749ae49f8beed206443599640616900b802adc3498d0a57d1489d\
e54057d9d8b25c6f36cb95a68a986a39";

fn context(ring_size: usize) -> RingContext {
    let params = RingProofParams::from_seed(ring_size, [7u8; 32]);
    let mut srs = Vec::new();
    params.pcs.serialize_uncompressed(&mut srs).unwrap();
    RingContext::from_srs(ring_size, srs).unwrap()
}

fn key_bytes(index: usize) -> [u8; 32] {
    let mut bytes = [0u8; 32];
    Secret::from_seed(&index.to_le_bytes()).public().serialize_compressed(&mut bytes[..]).unwrap();
    bytes
}

fn ring(indices: &[usize]) -> Vec<Public> {
    let raw: Vec<CPublic> = indices.iter().map(|&i| CPublic(key_bytes(i))).collect();
    checked_ring(&raw).unwrap()
}

fn ring_of_eight() -> Vec<Public> {
    ring(&[0, 1, 2, 3, 4, 5, 6, 7])
}

#[test]
fn prover_keeps_index_and_ring() {
    let prover = Prover::new(ring_of_eight(), 3);
    assert_eq!(prover.prover_idx(), 3);
    assert_eq!(prover.ring_keys().len(), 8);
    assert_eq!(prover.ring_keys()[5].to_bytes(), key_bytes(5));
}

#[test]
fn ietf_signature_has_the_known_bytes() {
    let prover = Prover::new(ring_of_eight(), 3);
    let sig = prover.ietf_vrf_sign(b"input", b"aux");
    assert_eq!(sig.len(), 96);
    assert_eq!(hex::encode(&sig), IETF_SIGNATURE);
}

#[test]
fn ietf_signature_is_output_and_proof_of_the_index_secret() {
    let secret = Secret::from_seed(&5usize.to_le_bytes());
    let input = Input::new(b"some input").unwrap();
    let output = secret.output(input);
    let proof = ark_vrf::ietf::Prover::prove(&secret, input, output, b"some aux");
    let mut expected = Vec::new();
    output.serialize_compressed(&mut expected).unwrap();
    proof.serialize_compressed(&mut expected).unwrap();
    let prover = Prover::new(ring_of_eight(), 5);
    assert_eq!(prover.ietf_vrf_sign(b"some input", b"some aux"), expected);
}

#[test]
fn ietf_verify_gives_the_known_ticket() {
    let verifier = Verifier::new(&context(8), ring_of_eight());
    let sig = hex::decode(IETF_SIGNATURE).unwrap();
    let ticket = verifier.ietf_vrf_verify(b"input", b"aux", &sig, 3).unwrap();
    assert_eq!(ticket.len(), TICKET_LEN);
    assert_eq!(hex::encode(ticket), TICKET);
}

#[test]
fn ticket_is_the_first_half_of_the_output_hash() {
    let secret = Secret::from_seed(&2usize.to_le_bytes());
    let hash = secret.output(Input::new(b"abc").unwrap()).hash();
    let prover = Prover::new(ring_of_eight(), 2);
    let verifier = Verifier::new(&context(8), ring_of_eight());
    let sig = prover.ietf_vrf_sign(b"abc", b"x");
    let ticket = verifier.ietf_vrf_verify(b"abc", b"x", &sig, 2).unwrap();
    assert_eq!(&ticket[..], &hash[..32]);
}

#[test]
fn verifier_commitment_has_the_known_bytes() {
    let verifier = Verifier::new(&context(8), ring_of_eight());
    assert_eq!(verifier.commitment_bytes().len(), 144);
    assert_eq!(hex::encode(verifier.commitment_bytes()), COMMITMENT);
    assert_eq!(verifier.ring_keys().len(), 8);
}

#[test]
fn verifier_commitment_is_the_one_of_the_verifier_key() {
    let params = RingProofParams::from_seed(8, [7u8; 32]);
    let points: Vec<_> = (0..8usize).map(|i| Secret::from_seed(&i.to_le_bytes()).public().0).collect();
    let mut expected = Vec::new();
    params.verifier_key(&points).commitment().serialize_compressed(&mut expected).unwrap();
    let verifier = Verifier::new(&context(8), ring_of_eight());
    assert_eq!(verifier.commitment_bytes(), &expected[..]);
}

#[test]
fn ring_round_trip() {
    let ctx = context(8);
    let prover = Prover::new(ring_of_eight(), 3);
    let verifier = Verifier::new(&ctx, ring_of_eight());
    let sig = prover.ring_vrf_sign(&ctx, b"input", b"aux");
    assert_eq!(sig.len(), 784);
    let ticket = verifier.ring_vrf_verify(&ctx, b"input", b"aux", &sig).unwrap();
    assert_eq!(hex::encode(ticket), TICKET);
}

#[test]
fn ring_round_trip_gives_the_same_ticket_for_any_aux() {
    let ctx = context(8);
    let prover = Prover::new(ring_of_eight(), 3);
    let verifier = Verifier::new(&ctx, ring_of_eight());
    let first = prover.ring_vrf_sign(&ctx, b"input", b"aux");
    let second = prover.ring_vrf_sign(&ctx, b"input", b"another aux");
    assert_eq!(first[..32], second[..32]);
    let a = verifier.ring_vrf_verify(&ctx, b"input", b"aux", &first).unwrap();
    let b = verifier.ring_vrf_verify(&ctx, b"input", b"another aux", &second).unwrap();
    assert_eq!(a, b);
}

#[test]
fn ring_round_trip_for_every_position() {
    let ctx = context(8);
    let verifier = Verifier::new(&ctx, ring(&[0, 1, 2]));
    for index in 0..3 {
        let prover = Prover::new(ring(&[0, 1, 2]), index);
        let sig = prover.ring_vrf_sign(&ctx, b"slot 9", b"epoch 4");
        assert!(verifier.ring_vrf_verify(&ctx, b"slot 9", b"epoch 4", &sig).is_ok());
    }
}

#[test]
fn ring_and_ietf_tickets_agree() {
    let ctx = context(8);
    let prover = Prover::new(ring_of_eight(), 6);
    let verifier = Verifier::new(&ctx, ring_of_eight());
    let ring_sig = prover.ring_vrf_sign(&ctx, b"same input", b"ring aux");
    let ietf_sig = prover.ietf_vrf_sign(b"same input", b"ietf aux");
    let from_ring = verifier.ring_vrf_verify(&ctx, b"same input", b"ring aux", &ring_sig).unwrap();
    let from_ietf = verifier.ietf_vrf_verify(b"same input", b"ietf aux", &ietf_sig, 6).unwrap();
    assert_eq!(from_ring, from_ietf);
}

#[test]
fn provers_of_one_index_agree() {
    let ctx = context(8);
    let first = Prover::new(ring_of_eight(), 4);
    let second = Prover::new(ring_of_eight(), 4);
    assert_eq!(first.ietf_vrf_sign(b"in", b"aux"), second.ietf_vrf_sign(b"in", b"aux"));
    assert_eq!(first.ietf_vrf_sign(b"in", b"aux"), first.ietf_vrf_sign(b"in", b"aux"));
    let a = first.ring_vrf_sign(&ctx, b"in", b"aux");
    let b = second.ring_vrf_sign(&ctx, b"in", b"aux");
    assert_eq!(a[..32], b[..32]);
    let other = Prover::new(ring_of_eight(), 5);
    assert_ne!(first.ietf_vrf_sign(b"in", b"aux")[..32], other.ietf_vrf_sign(b"in", b"aux")[..32]);
}

#[test]
fn ring_proofs_are_randomised() {
    let ctx = context(8);
    let prover = Prover::new(ring_of_eight(), 4);
    let a = prover.ring_vrf_sign(&ctx, b"in", b"aux");
    let b = prover.ring_vrf_sign(&ctx, b"in", b"aux");
    assert_ne!(a, b);
}

#[test]
fn ring_verify_rejects_other_input_and_other_aux() {
    let ctx = context(8);
    let prover = Prover::new(ring_of_eight(), 3);
    let verifier = Verifier::new(&ctx, ring_of_eight());
    let sig = prover.ring_vrf_sign(&ctx, b"input", b"aux");
    assert_eq!(
        verifier.ring_vrf_verify(&ctx, b"other", b"aux", &sig),
        Err(VerifyError::ProofInvalid)
    );
    assert_eq!(
        verifier.ring_vrf_verify(&ctx, b"input", b"other", &sig),
        Err(VerifyError::ProofInvalid)
    );
}

#[test]
fn tampered_ring_signature_is_rejected() {
    let ctx = context(8);
    let prover = Prover::new(ring_of_eight(), 3);
    let verifier = Verifier::new(&ctx, ring_of_eight());
    let sig = prover.ring_vrf_sign(&ctx, b"input", b"aux");
    let mut position = 0;
    while position < sig.len() {
        let mut bad = sig.clone();
        bad[position] ^= 0x01;
        assert!(verifier.ring_vrf_verify(&ctx, b"input", b"aux", &bad).is_err());
        position += 29;
    }
    let mut bad = sig.clone();
    bad[783] ^= 0x80;
    assert!(verifier.ring_vrf_verify(&ctx, b"input", b"aux", &bad).is_err());
}

#[test]
fn tampered_ietf_signature_is_rejected() {
    let prover = Prover::new(ring_of_eight(), 3);
    let verifier = Verifier::new(&context(8), ring_of_eight());
    let sig = prover.ietf_vrf_sign(b"input", b"aux");
    for position in 0..sig.len() {
        let mut bad = sig.clone();
        bad[position] ^= 0x01;
        assert!(verifier.ietf_vrf_verify(b"input", b"aux", &bad, 3).is_err());
    }
}

#[test]
fn signature_under_another_ring_is_rejected() {
    let ctx = context(8);
    let prover = Prover::new(ring_of_eight(), 3);
    let sig = prover.ring_vrf_sign(&ctx, b"input", b"aux");
    let others = Verifier::new(&ctx, ring(&[10, 11, 12, 13, 14, 15, 16, 17]));
    assert_eq!(
        others.ring_vrf_verify(&ctx, b"input", b"aux", &sig),
        Err(VerifyError::ProofInvalid)
    );
    let reordered = Verifier::new(&ctx, ring(&[1, 0, 2, 3, 4, 5, 6, 7]));
    assert_eq!(
        reordered.ring_vrf_verify(&ctx, b"input", b"aux", &sig),
        Err(VerifyError::ProofInvalid)
    );
    let shorter = Verifier::new(&ctx, ring(&[0, 1, 2, 3, 4, 5, 6]));
    assert_eq!(
        shorter.ring_vrf_verify(&ctx, b"input", b"aux", &sig),
        Err(VerifyError::ProofInvalid)
    );
}

#[test]
fn prover_knows_whether_it_is_a_member() {
    assert!(Prover::new(ring_of_eight(), 3).holds_own_key());
    assert!(Prover::new(ring_of_eight(), 0).holds_own_key());
    assert!(Prover::new(ring_of_eight(), 7).holds_own_key());
    assert!(!Prover::new(ring_of_eight(), 8).holds_own_key());
    assert!(!Prover::new(ring_of_eight(), 100).holds_own_key());
    assert!(!Prover::new(ring(&[1, 0, 2]), 0).holds_own_key());
    assert!(Prover::new(ring(&[1, 0, 2]), 2).holds_own_key());
    assert!(!Prover::new(Vec::new(), 0).holds_own_key());
}

#[test]
fn prover_public_key_is_the_one_of_its_secret() {
    let prover = Prover::new(Vec::new(), 3);
    assert_eq!(prover.public_key(), &key_bytes(3)[..]);
    assert_eq!(
        hex::encode(prover.public_key()),
        "7518285dfdb55145d235f129b81192cd491abedbe1b1393c4592d6ff7a01d015"
    );
}

#[test]
fn same_bytes_compares_contents() {
    assert!(same_bytes(&[], &[]));
    assert!(same_bytes(&[1, 2, 3], &[1, 2, 3]));
    assert!(!same_bytes(&[1, 2, 3], &[1, 2, 4]));
    assert!(!same_bytes(&[1, 2, 3], &[1, 2]));
    assert!(!same_bytes(&[0], &[]));
}

#[test]
fn malformed_ring_signature_is_reported() {
    let ctx = context(8);
    let verifier = Verifier::new(&ctx, ring_of_eight());
    let sig = Prover::new(ring_of_eight(), 3).ring_vrf_sign(&ctx, b"input", b"aux");
    assert_eq!(
        verifier.ring_vrf_verify(&ctx, b"input", b"aux", &[]),
        Err(VerifyError::MalformedSignature)
    );
    assert_eq!(
        verifier.ring_vrf_verify(&ctx, b"input", b"aux", &sig[..783]),
        Err(VerifyError::MalformedSignature)
    );
    let mut longer = sig.clone();
    longer.push(0);
    assert_eq!(
        verifier.ring_vrf_verify(&ctx, b"input", b"aux", &longer),
        Err(VerifyError::MalformedSignature)
    );
    assert_eq!(
        verifier.ring_vrf_verify(&ctx, b"input", b"aux", &[0xffu8; 784]),
        Err(VerifyError::MalformedSignature)
    );
}

#[test]
fn malformed_ietf_signature_is_reported() {
    let verifier = Verifier::new(&context(8), ring_of_eight());
    let sig = hex::decode(IETF_SIGNATURE).unwrap();
    assert_eq!(
        verifier.ietf_vrf_verify(b"input", b"aux", &sig[..64], 3),
        Err(VerifyError::MalformedSignature)
    );
    assert_eq!(
        verifier.ietf_vrf_verify(b"input", b"aux", &[0xffu8; 96], 3),
        Err(VerifyError::MalformedSignature)
    );
    assert_eq!(
        verifier.ietf_vrf_verify(b"input", b"aux", &[0xffu8; 96], 99),
        Err(VerifyError::MalformedSignature)
    );
}

#[test]
fn ietf_index_out_of_range_is_reported() {
    let verifier = Verifier::new(&context(8), ring_of_eight());
    let sig = hex::decode(IETF_SIGNATURE).unwrap();
    assert_eq!(
        verifier.ietf_vrf_verify(b"input", b"aux", &sig, 8),
        Err(VerifyError::IndexOutOfRange)
    );
    assert_eq!(
        verifier.ietf_vrf_verify(b"input", b"aux", &sig, usize::MAX),
        Err(VerifyError::IndexOutOfRange)
    );
}

#[test]
fn ietf_wrong_signer_or_data_is_rejected() {
    let verifier = Verifier::new(&context(8), ring_of_eight());
    let sig = hex::decode(IETF_SIGNATURE).unwrap();
    assert_eq!(
        verifier.ietf_vrf_verify(b"input", b"aux", &sig, 2),
        Err(VerifyError::ProofInvalid)
    );
    assert_eq!(
        verifier.ietf_vrf_verify(b"input", b"aux2", &sig, 3),
        Err(VerifyError::ProofInvalid)
    );
    assert_eq!(
        verifier.ietf_vrf_verify(b"input2", b"aux", &sig, 3),
        Err(VerifyError::ProofInvalid)
    );
}

#[test]
fn empty_ring_has_a_commitment() {
    let ctx = context(8);
    let verifier = Verifier::new(&ctx, Vec::new());
    assert_eq!(verifier.commitment_bytes().len(), 144);
    let sig = hex::decode(IETF_SIGNATURE).unwrap();
    assert_eq!(
        verifier.ietf_vrf_verify(b"input", b"aux", &sig, 0),
        Err(VerifyError::IndexOutOfRange)
    );
}

#[test]
fn keys_beyond_the_capacity_are_ignored_by_the_commitment() {
    let ctx = context(8);
    let indices: Vec<usize> = (0..256).collect();
    let full = Verifier::new(&ctx, ring(&indices[..255]));
    let over = Verifier::new(&ctx, ring(&indices));
    assert_eq!(full.commitment_bytes(), over.commitment_bytes());
    let sig = Prover::new(ring(&indices), 255).ietf_vrf_sign(b"input", b"aux");
    assert!(over.ietf_vrf_verify(b"input", b"aux", &sig, 255).is_ok());
}
