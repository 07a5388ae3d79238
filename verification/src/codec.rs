//! The two signature layouts. A signature is the compressed output point
//! followed by the proof, with nothing between or after them:
//! 32 + 752 bytes for a ring signature, 32 + 64 bytes for an IETF one.

use crate::suite::{
    ietf_proof_decodes, is_ietf_proof, is_point_encoding, is_ring_proof, point_decodes,
    ring_proof_decodes, IETF_PROOF_LEN, POINT_LEN, RING_PROOF_LEN,
};
use vstd::array::array_as_slice;
use vstd::prelude::*;
use vstd::slice::{slice_subrange, slice_to_vec};

verus! {

/// Bytes of an encoded ring signature.
pub const RING_SIGNATURE_LEN: usize = 784;

/// Bytes of an encoded IETF signature.
pub const IETF_SIGNATURE_LEN: usize = 96;

/// The output part of an encoded signature.
pub open spec fn output_part(bytes: Seq<u8>) -> Seq<u8> {
    bytes.subrange(0, POINT_LEN as int)
}

/// The proof part of an encoded signature.
pub open spec fn proof_part(bytes: Seq<u8>) -> Seq<u8> {
    bytes.subrange(POINT_LEN as int, bytes.len() as int)
}

/// Whether the bytes are a ring signature: the exact length, an output that
/// decodes to a point and a proof that decodes to a ring proof.
pub open spec fn is_ring_signature(bytes: Seq<u8>) -> bool {
    &&& bytes.len() == RING_SIGNATURE_LEN
    &&& is_point_encoding(output_part(bytes))
    &&& is_ring_proof(proof_part(bytes))
}

/// Whether the bytes are an IETF signature: the exact length, an output
/// that decodes to a point and a proof that decodes to an IETF proof.
pub open spec fn is_ietf_signature(bytes: Seq<u8>) -> bool {
    &&& bytes.len() == IETF_SIGNATURE_LEN
    &&& is_point_encoding(output_part(bytes))
    &&& is_ietf_proof(proof_part(bytes))
}

/// The first 32 bytes of a buffer, as an array.
pub fn leading_32(bytes: &[u8]) -> (point: [u8; 32])
    requires
        bytes@.len() >= POINT_LEN,
    ensures
        point@ == output_part(bytes@),
{
    let mut point = [0u8; 32];
    let mut i: usize = 0;
    while i < 32
        invariant
            i <= 32,
            bytes@.len() >= 32,
            forall|j: int| 0 <= j < i ==> point@[j] == bytes@[j],
        decreases 32 - i,
    {
        point[i] = bytes[i];
        i += 1;
    }
    assert(point@ =~= output_part(bytes@));
    point
}

/// Output and proof, one after the other.
fn joined(output: &[u8; 32], proof: &Vec<u8>) -> (bytes: Vec<u8>)
    ensures
        bytes@ == output@ + proof@,
{
    let mut bytes = Vec::new();
    bytes.extend_from_slice(array_as_slice(output));
    bytes.extend_from_slice(proof.as_slice());
    bytes
}

/// An IETF signature: the output point and the proof that it was derived
/// under one known public key.
pub struct IetfVrfSignature {
    output: [u8; 32],
    proof: Vec<u8>,
}

/// A ring signature: the output point and the proof, Pedersen and ring
/// membership together, that it was derived under some key of a ring.
pub struct RingVrfSignature {
    output: [u8; 32],
    proof: Vec<u8>,
}

impl IetfVrfSignature {
    /// The encoded output point.
    pub closed spec fn spec_output(&self) -> Seq<u8> {
        self.output@
    }

    /// The encoded proof.
    pub closed spec fn spec_proof(&self) -> Seq<u8> {
        self.proof@
    }

    /// The invariant: both parts have their fixed lengths.
    #[verifier::type_invariant]
    pub open spec fn wf(&self) -> bool {
        self.spec_output().len() == POINT_LEN && self.spec_proof().len() == IETF_PROOF_LEN
    }

    /// The bytes of the signature.
    pub open spec fn encoding(&self) -> Seq<u8> {
        self.spec_output() + self.spec_proof()
    }

    /// A signature from its two parts.
    pub fn new(output: [u8; 32], proof: Vec<u8>) -> (sig: IetfVrfSignature)
        requires
            proof@.len() == IETF_PROOF_LEN,
        ensures
            sig.wf(),
            sig.spec_output() == output@,
            sig.spec_proof() == proof@,
    {
        IetfVrfSignature { output, proof }
    }

    /// The output point.
    pub fn output_bytes(&self) -> (output: &[u8; 32])
        ensures
            output@ == self.spec_output(),
    {
        &self.output
    }

    /// The proof.
    pub fn proof_bytes(&self) -> (proof: &[u8])
        ensures
            proof@ == self.spec_proof(),
    {
        self.proof.as_slice()
    }

    /// Encodes the signature: 96 bytes.
    pub fn serialize_compressed(&self) -> (bytes: Vec<u8>)
        ensures
            bytes@ == self.encoding(),
            bytes@.len() == IETF_SIGNATURE_LEN,
    {
        proof {
            use_type_invariant(self);
        }
        joined(&self.output, &self.proof)
    }

    /// Decodes a signature; `None` unless the bytes are an IETF signature.
    pub fn deserialize_compressed(bytes: &[u8]) -> (sig: Option<IetfVrfSignature>)
        ensures
            sig.is_some() == is_ietf_signature(bytes@),
            sig matches Some(s) ==> s.wf() && s.encoding() == bytes@,
    {
        if bytes.len() != IETF_SIGNATURE_LEN {
            return None;
        }
        let output = leading_32(bytes);
        if !point_decodes(&output) {
            return None;
        }
        let proof = slice_subrange(bytes, POINT_LEN, IETF_SIGNATURE_LEN);
        if !ietf_proof_decodes(proof) {
            return None;
        }
        let sig = IetfVrfSignature { output, proof: slice_to_vec(proof) };
        assert(sig.encoding() =~= bytes@);
        Some(sig)
    }
}

impl RingVrfSignature {
    /// The encoded output point.
    pub closed spec fn spec_output(&self) -> Seq<u8> {
        self.output@
    }

    /// The encoded proof.
    pub closed spec fn spec_proof(&self) -> Seq<u8> {
        self.proof@
    }

    /// The invariant: both parts have their fixed lengths.
    #[verifier::type_invariant]
    pub open spec fn wf(&self) -> bool {
        self.spec_output().len() == POINT_LEN && self.spec_proof().len() == RING_PROOF_LEN
    }

    /// The bytes of the signature.
    pub open spec fn encoding(&self) -> Seq<u8> {
        self.spec_output() + self.spec_proof()
    }

    /// A signature from its two parts.
    pub fn new(output: [u8; 32], proof: Vec<u8>) -> (sig: RingVrfSignature)
        requires
            proof@.len() == RING_PROOF_LEN,
        ensures
            sig.wf(),
            sig.spec_output() == output@,
            sig.spec_proof() == proof@,
    {
        RingVrfSignature { output, proof }
    }

    /// The output point.
    pub fn output_bytes(&self) -> (output: &[u8; 32])
        ensures
            output@ == self.spec_output(),
    {
        &self.output
    }

    /// The proof.
    pub fn proof_bytes(&self) -> (proof: &[u8])
        ensures
            proof@ == self.spec_proof(),
    {
        self.proof.as_slice()
    }

    /// Encodes the signature: 784 bytes.
    pub fn serialize_compressed(&self) -> (bytes: Vec<u8>)
        ensures
            bytes@ == self.encoding(),
            bytes@.len() == RING_SIGNATURE_LEN,
    {
        proof {
            use_type_invariant(self);
        }
        joined(&self.output, &self.proof)
    }

    /// Decodes a signature; `None` unless the bytes are a ring signature.
    pub fn deserialize_compressed(bytes: &[u8]) -> (sig: Option<RingVrfSignature>)
        ensures
            sig.is_some() == is_ring_signature(bytes@),
            sig matches Some(s) ==> s.wf() && s.encoding() == bytes@,
    {
        if bytes.len() != RING_SIGNATURE_LEN {
            return None;
        }
        let output = leading_32(bytes);
        if !point_decodes(&output) {
            return None;
        }
        let proof = slice_subrange(bytes, POINT_LEN, RING_SIGNATURE_LEN);
        if !ring_proof_decodes(proof) {
            return None;
        }
        let sig = RingVrfSignature { output, proof: slice_to_vec(proof) };
        assert(sig.encoding() =~= bytes@);
        Some(sig)
    }
}

/// The parts of an encoding are the parts it was put together from.
pub proof fn lemma_parts_of_joined(output: Seq<u8>, proof: Seq<u8>)
    requires
        output.len() == POINT_LEN,
    ensures
        output_part(output + proof) == output,
        proof_part(output + proof) == proof,
{
    assert(output_part(output + proof) =~= output);
    assert(proof_part(output + proof) =~= proof);
}

} // verus!
