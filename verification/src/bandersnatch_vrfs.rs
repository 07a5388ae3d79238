//! The two actors. A prover holds the secret of one participant and signs;
//! a verifier holds a ring and its commitment and checks signatures, giving
//! the 32-byte ticket score of each one it accepts.

use crate::codec::{
    is_ietf_signature, is_ring_signature, leading_32, lemma_parts_of_joined, output_part,
    proof_part, IetfVrfSignature, RingVrfSignature, IETF_SIGNATURE_LEN, RING_SIGNATURE_LEN,
};
use crate::keys::Public;
use crate::ring_context::RingContext;
use crate::suite::{
    has_input_point, hash_output, ietf_accepts, ietf_check, ietf_proof, ietf_prove, output_hash,
    output_point, public_key, public_of, ring_accepts, ring_check, ring_commit, ring_commitment,
    ring_keys, ring_prove, vrf_output, COMMITMENT_LEN, POINT_LEN,
};
use vstd::bytes::{spec_u64_to_le_bytes, u64_to_le_bytes};
use vstd::prelude::*;

verus! {

/// Bytes of a ticket score.
pub const TICKET_LEN: usize = 32;

/// Why a signature was not accepted.
#[derive(Clone, Copy, Debug, PartialEq, Eq, Structural)]
pub enum VerifyError {
    /// The bytes are not a signature of the expected layout.
    MalformedSignature,
    /// The signature decodes, and the proof does not hold.
    ProofInvalid,
    /// The ring has no key at the signer's index.
    IndexOutOfRange,
}

/// The seed of the secret of participant `prover_idx`: the index as eight
/// little-endian bytes.
pub open spec fn secret_seed(prover_idx: usize) -> Seq<u8> {
    spec_u64_to_le_bytes(prover_idx as u64)
}

/// Whether every key of a ring is well formed.
pub open spec fn ring_wf(ring: Seq<Public>) -> bool {
    forall|i: int| 0 <= i < ring.len() ==> #[trigger] ring[i].wf()
}

/// The ticket score of an output: the first 32 bytes of its hash.
pub open spec fn ticket(output: Seq<u8>) -> Seq<u8> {
    output_hash(output).subrange(0, TICKET_LEN as int)
}

/// What verifying a ring signature gives: malformed bytes first, then the
/// proof, then the ticket of the output that the signature carries.
pub open spec fn ring_verdict(
    ring_size: usize,
    srs: Seq<u8>,
    commitment: Seq<u8>,
    data: Seq<u8>,
    aux: Seq<u8>,
    signature: Seq<u8>,
) -> Result<Seq<u8>, VerifyError> {
    if !is_ring_signature(signature) {
        Err(VerifyError::MalformedSignature)
    } else if !ring_accepts(
        ring_size as int,
        srs,
        commitment,
        data,
        aux,
        output_part(signature),
        proof_part(signature),
    ) {
        Err(VerifyError::ProofInvalid)
    } else {
        Ok(ticket(output_part(signature)))
    }
}

/// What verifying an IETF signature gives: malformed bytes first, then the
/// signer's index, then the proof under the key at that index, then the
/// ticket of the output that the signature carries.
pub open spec fn ietf_verdict(
    ring: Seq<Public>,
    data: Seq<u8>,
    aux: Seq<u8>,
    signature: Seq<u8>,
    signer_key_index: usize,
) -> Result<Seq<u8>, VerifyError> {
    if !is_ietf_signature(signature) {
        Err(VerifyError::MalformedSignature)
    } else if signer_key_index >= ring.len() {
        Err(VerifyError::IndexOutOfRange)
    } else if !ietf_accepts(
        ring[signer_key_index as int]@,
        data,
        aux,
        output_part(signature),
        proof_part(signature),
    ) {
        Err(VerifyError::ProofInvalid)
    } else {
        Ok(ticket(output_part(signature)))
    }
}

/// Whether a returned ticket or error is the one that a verdict names.
pub open spec fn matches_verdict(
    result: Result<[u8; 32], VerifyError>,
    verdict: Result<Seq<u8>, VerifyError>,
) -> bool {
    match result {
        Ok(hash) => verdict == Ok::<Seq<u8>, VerifyError>(hash@),
        Err(e) => verdict == Err::<Seq<u8>, VerifyError>(e),
    }
}

/// Whether two buffers hold the same bytes.
pub fn same_bytes(a: &[u8], b: &[u8]) -> (same: bool)
    ensures
        same == (a@ == b@),
{
    if a.len() != b.len() {
        return false;
    }
    let mut i: usize = 0;
    while i < a.len()
        invariant
            i <= a.len(),
            a.len() == b.len(),
            forall|j: int| 0 <= j < i ==> a@[j] == b@[j],
        decreases a.len() - i,
    {
        if a[i] != b[i] {
            return false;
        }
        i += 1;
    }
    assert(a@ =~= b@);
    true
}

/// The prover of one participant of a ring.
pub struct Prover {
    prover_idx: usize,
    secret: Vec<u8>,
    public: Vec<u8>,
    ring: Vec<Public>,
}

impl Prover {
    /// The participant's position in the ring.
    pub closed spec fn index(&self) -> usize {
        self.prover_idx
    }

    /// The seed that the participant's secret is derived from.
    pub closed spec fn seed(&self) -> Seq<u8> {
        self.secret@
    }

    /// The public key of the participant's secret.
    pub closed spec fn public(&self) -> Seq<u8> {
        self.public@
    }

    /// The ring.
    pub closed spec fn ring(&self) -> Seq<Public> {
        self.ring@
    }

    /// The invariant: the secret is the one of the index, the public key is
    /// the one of the secret, and every key of the ring is well formed.
    #[verifier::type_invariant]
    pub open spec fn wf(&self) -> bool {
        &&& self.seed() == secret_seed(self.index())
        &&& self.public() == public_key(self.seed())
        &&& self.public().len() == POINT_LEN
        &&& ring_wf(self.ring())
    }

    /// Whether the ring holds the participant's own key at the
    /// participant's index: whether the prover is the member of the ring
    /// that its index says.
    pub open spec fn is_member(&self) -> bool {
        self.index() < self.ring().len() && self.ring()[self.index() as int]@ == public_key(
            secret_seed(self.index()),
        )
    }

    /// The output point that the prover derives for an input.
    pub open spec fn output_for(&self, data: Seq<u8>) -> Seq<u8> {
        vrf_output(secret_seed(self.index()), data)
    }

    /// The IETF signature that the prover makes for an input and
    /// additional data.
    pub open spec fn ietf_signature(&self, data: Seq<u8>, aux: Seq<u8>) -> Seq<u8> {
        self.output_for(data) + ietf_proof(secret_seed(self.index()), data, aux)
    }

    /// The prover of participant `prover_idx`, with the secret derived from
    /// that index.
    pub fn new(ring: Vec<Public>, prover_idx: usize) -> (prover: Prover)
        requires
            ring_wf(ring@),
        ensures
            prover.wf(),
            prover.index() == prover_idx,
            prover.ring() == ring@,
    {
        let secret = u64_to_le_bytes(prover_idx as u64);
        let public = public_of(secret.as_slice());
        Prover { prover_idx, secret, public, ring }
    }

    /// The public key of the participant's secret.
    pub fn public_key(&self) -> (public: &[u8])
        ensures
            public@ == public_key(secret_seed(self.index())),
            public@.len() == POINT_LEN,
    {
        proof {
            use_type_invariant(self);
        }
        self.public.as_slice()
    }

    /// Whether the ring holds the participant's own key at the
    /// participant's index.
    pub fn holds_own_key(&self) -> (yes: bool)
        ensures
            yes == self.is_member(),
    {
        proof {
            use_type_invariant(self);
        }
        if self.prover_idx >= self.ring.len() {
            return false;
        }
        let key = self.ring[self.prover_idx].to_bytes();
        same_bytes(key.as_slice(), self.public.as_slice())
    }

    /// The participant's position in the ring.
    pub fn prover_idx(&self) -> (index: usize)
        ensures
            index == self.index(),
    {
        self.prover_idx
    }

    /// The ring.
    pub fn ring_keys(&self) -> (ring: &Vec<Public>)
        ensures
            ring@ == self.ring(),
    {
        &self.ring
    }

    /// Signs anonymously: the output for the input, and a proof that some
    /// key of the ring derived it, bound to `aux_data`. The result has 784
    /// bytes and starts with the output, which does not depend on
    /// `aux_data`. The proof is randomised. The prover signs as the member
    /// of the ring that it is, at an index within the context's capacity.
    pub fn ring_vrf_sign(&self, ctx: &RingContext, vrf_input_data: &[u8], aux_data: &[u8]) -> (sig:
        Vec<u8>)
        requires
            self.is_member(),
            self.index() < ctx.capacity(),
            has_input_point(vrf_input_data@),
        ensures
            sig@.len() == RING_SIGNATURE_LEN,
            output_part(sig@) == self.output_for(vrf_input_data@),
    {
        proof {
            use_type_invariant(self);
        }
        let output = output_point(self.secret.as_slice(), vrf_input_data);
        let proof = ring_prove(
            ctx.ring_size(),
            ctx.srs_bytes(),
            &self.ring,
            self.prover_idx,
            self.secret.as_slice(),
            vrf_input_data,
            aux_data,
        );
        let signature = RingVrfSignature::new(leading_32(output.as_slice()), proof);
        proof {
            assert(output_part(output@) =~= output@);
            lemma_parts_of_joined(signature.spec_output(), signature.spec_proof());
        }
        signature.serialize_compressed()
    }

    /// Signs under the participant's own key: the output for the input
    /// followed by the IETF proof, 96 bytes, a function of the secret, the
    /// input and `aux_data`.
    pub fn ietf_vrf_sign(&self, vrf_input_data: &[u8], aux_data: &[u8]) -> (sig: Vec<u8>)
        requires
            has_input_point(vrf_input_data@),
        ensures
            sig@.len() == IETF_SIGNATURE_LEN,
            sig@ == self.ietf_signature(vrf_input_data@, aux_data@),
            output_part(sig@) == self.output_for(vrf_input_data@),
    {
        proof {
            use_type_invariant(self);
        }
        let output = output_point(self.secret.as_slice(), vrf_input_data);
        let proof = ietf_prove(self.secret.as_slice(), vrf_input_data, aux_data);
        let signature = IetfVrfSignature::new(leading_32(output.as_slice()), proof);
        proof {
            assert(output_part(output@) =~= output@);
            lemma_parts_of_joined(signature.spec_output(), signature.spec_proof());
        }
        signature.serialize_compressed()
    }
}

/// The verifier of a ring: its keys, and the commitment to them that ring
/// signatures are checked against.
pub struct Verifier {
    commitment: Vec<u8>,
    ring: Vec<Public>,
}

impl Verifier {
    /// The encoded commitment to the ring.
    pub closed spec fn commitment(&self) -> Seq<u8> {
        self.commitment@
    }

    /// The ring.
    pub closed spec fn ring(&self) -> Seq<Public> {
        self.ring@
    }

    /// The invariant: every key of the ring is well formed, and the
    /// commitment has its fixed length.
    #[verifier::type_invariant]
    pub open spec fn wf(&self) -> bool {
        ring_wf(self.ring()) && self.commitment().len() == COMMITMENT_LEN
    }

    /// The verifier of a ring, with the commitment computed once, here.
    pub fn new(ctx: &RingContext, ring: Vec<Public>) -> (verifier: Verifier)
        requires
            ring_wf(ring@),
        ensures
            verifier.wf(),
            verifier.ring() == ring@,
            verifier.commitment() == ring_commitment(
                ctx.size() as int,
                ctx.srs(),
                ring_keys(ring@),
            ),
    {
        let commitment = ring_commit(ctx.ring_size(), ctx.srs_bytes(), &ring);
        Verifier { commitment, ring }
    }

    /// The ring.
    pub fn ring_keys(&self) -> (ring: &Vec<Public>)
        ensures
            ring@ == self.ring(),
    {
        &self.ring
    }

    /// The encoded commitment to the ring.
    pub fn commitment_bytes(&self) -> (commitment: &[u8])
        ensures
            commitment@ == self.commitment(),
    {
        self.commitment.as_slice()
    }

    /// Checks an anonymous signature against the ring's commitment and
    /// gives the ticket score of its output.
    pub fn ring_vrf_verify(
        &self,
        ctx: &RingContext,
        vrf_input_data: &[u8],
        aux_data: &[u8],
        signature: &[u8],
    ) -> (result: Result<[u8; 32], VerifyError>)
        ensures
            matches_verdict(
                result,
                ring_verdict(
                    ctx.size(),
                    ctx.srs(),
                    self.commitment(),
                    vrf_input_data@,
                    aux_data@,
                    signature@,
                ),
            ),
    {
        let sig = match RingVrfSignature::deserialize_compressed(signature) {
            Some(sig) => sig,
            None => {
                return Err(VerifyError::MalformedSignature);
            },
        };
        proof {
            lemma_parts_of_joined(sig.spec_output(), sig.spec_proof());
        }
        if !ring_check(
            ctx.ring_size(),
            ctx.srs_bytes(),
            self.commitment.as_slice(),
            vrf_input_data,
            aux_data,
            sig.output_bytes(),
            sig.proof_bytes(),
        ) {
            return Err(VerifyError::ProofInvalid);
        }
        let hash = hash_output(sig.output_bytes());
        Ok(leading_32(hash.as_slice()))
    }

    /// Checks a signature against the key at `signer_key_index` and gives
    /// the ticket score of its output.
    pub fn ietf_vrf_verify(
        &self,
        vrf_input_data: &[u8],
        aux_data: &[u8],
        signature: &[u8],
        signer_key_index: usize,
    ) -> (result: Result<[u8; 32], VerifyError>)
        ensures
            matches_verdict(
                result,
                ietf_verdict(
                    self.ring(),
                    vrf_input_data@,
                    aux_data@,
                    signature@,
                    signer_key_index,
                ),
            ),
    {
        let sig = match IetfVrfSignature::deserialize_compressed(signature) {
            Some(sig) => sig,
            None => {
                return Err(VerifyError::MalformedSignature);
            },
        };
        proof {
            lemma_parts_of_joined(sig.spec_output(), sig.spec_proof());
        }
        if signer_key_index >= self.ring.len() {
            return Err(VerifyError::IndexOutOfRange);
        }
        let public = self.ring[signer_key_index].to_bytes();
        if !ietf_check(&public, vrf_input_data, aux_data, sig.output_bytes(), sig.proof_bytes()) {
            return Err(VerifyError::ProofInvalid);
        }
        let hash = hash_output(sig.output_bytes());
        Ok(leading_32(hash.as_slice()))
    }
}

} // verus!
