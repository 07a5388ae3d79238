use ark_vrf::reexports::ark_serialize::CanonicalSerialize;
use ark_vrf::suites::bandersnatch::{Input, Secret};
use bandersnatch_vrfs::codec::{
    leading_32, IetfVrfSignature, RingVrfSignature, IETF_SIGNATURE_LEN, RING_SIGNATURE_LEN,
};
use bandersnatch_vrfs::suite::{
    COMMITMENT_LEN, IETF_PROOF_LEN, OUTPUT_HASH_LEN, POINT_LEN, RING_PROOF_LEN,
};

fn output_bytes() -> [u8; 32] {
    let secret = Secret::from_seed(&3usize.to_le_bytes());
    let mut bytes = [0u8; 32];
    secret.output(Input::new(b"input").unwrap()).serialize_compressed(&mut bytes[..]).unwrap();
    bytes
}

fn ietf_proof_bytes() -> Vec<u8> {
    let secret = Secret::from_seed(&3usize.to_le_bytes());
    let input = Input::new(b"input").unwrap();
    let proof = ark_vrf::ietf::Prover::prove(&secret, input, secret.output(input), b"aux");
    let mut bytes = Vec::new();
    proof.serialize_compressed(&mut bytes).unwrap();
    bytes
}

#[test]
fn layout_sizes() {
    assert_eq!(RING_SIGNATURE_LEN, 784);
    assert_eq!(IETF_SIGNATURE_LEN, 96);
    assert_eq!(POINT_LEN + RING_PROOF_LEN, RING_SIGNATURE_LEN);
    assert_eq!(POINT_LEN + IETF_PROOF_LEN, IETF_SIGNATURE_LEN);
    assert_eq!(OUTPUT_HASH_LEN, 64);
    assert_eq!(COMMITMENT_LEN, 144);
}

#[test]
fn leading_32_takes_the_first_bytes() {
    let bytes: Vec<u8> = (0..40u8).collect();
    let head = leading_32(&bytes);
    assert_eq!(&head[..], &bytes[..32]);
}

#[test]
fn ietf_signature_is_output_then_proof() {
    let sig = IetfVrfSignature::new(output_bytes(), ietf_proof_bytes());
    let bytes = sig.serialize_compressed();
    assert_eq!(bytes.len(), 96);
    assert_eq!(&bytes[..32], &output_bytes()[..]);
    assert_eq!(&bytes[32..], &ietf_proof_bytes()[..]);
}

#[test]
fn ietf_signature_round_trip() {
    let bytes = IetfVrfSignature::new(output_bytes(), ietf_proof_bytes()).serialize_compressed();
    let sig = IetfVrfSignature::deserialize_compressed(&bytes).unwrap();
    assert_eq!(sig.output_bytes(), &output_bytes());
    assert_eq!(sig.proof_bytes(), &ietf_proof_bytes()[..]);
    assert_eq!(sig.serialize_compressed(), bytes);
}

#[test]
fn ietf_signature_of_wrong_length_is_rejected() {
    let bytes = IetfVrfSignature::new(output_bytes(), ietf_proof_bytes()).serialize_compressed();
    assert!(IetfVrfSignature::deserialize_compressed(&bytes[..95]).is_none());
    let mut longer = bytes.clone();
    longer.push(0);
    assert!(IetfVrfSignature::deserialize_compressed(&longer).is_none());
    assert!(IetfVrfSignature::deserialize_compressed(&[]).is_none());
}

#[test]
fn ietf_signature_with_bad_output_is_rejected() {
    let mut bytes = IetfVrfSignature::new(output_bytes(), ietf_proof_bytes()).serialize_compressed();
    for b in bytes[..32].iter_mut() {
        *b = 0xff;
    }
    assert!(IetfVrfSignature::deserialize_compressed(&bytes).is_none());
}

#[test]
fn ietf_signature_with_bad_proof_is_rejected() {
    let mut bytes = IetfVrfSignature::new(output_bytes(), ietf_proof_bytes()).serialize_compressed();
    for b in bytes[64..].iter_mut() {
        *b = 0xff;
    }
    assert!(IetfVrfSignature::deserialize_compressed(&bytes).is_none());
}

#[test]
fn ring_signature_of_wrong_length_is_rejected() {
    assert!(RingVrfSignature::deserialize_compressed(&[]).is_none());
    assert!(RingVrfSignature::deserialize_compressed(&[0u8; 783]).is_none());
    assert!(RingVrfSignature::deserialize_compressed(&[0u8; 785]).is_none());
    assert!(RingVrfSignature::deserialize_compressed(&[0u8; 96]).is_none());
}

#[test]
fn ring_signature_with_bad_proof_is_rejected() {
    let mut bytes = vec![0xffu8; 784];
    bytes[..32].copy_from_slice(&output_bytes());
    assert!(RingVrfSignature::deserialize_compressed(&bytes).is_none());
}
