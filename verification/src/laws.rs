//! What holds across signing and verifying, stated over the contracts of
//! the actors. Whether a proof is accepted is decided by the proof system;
//! these laws say what the ticket is whenever one is.

use crate::bandersnatch_vrfs::{ietf_verdict, ring_verdict, ticket, Prover, VerifyError};
use crate::codec::{
    lemma_parts_of_joined, output_part, proof_part, IetfVrfSignature, RingVrfSignature,
};
use crate::keys::Public;
use vstd::prelude::*;

verus! {

/// Deriving a prover twice from one index gives the same secret: both
/// derive the same output for an input, hence the same ticket, and make
/// the same IETF signature.
pub proof fn lemma_same_index_same_output(
    first: Prover,
    second: Prover,
    data: Seq<u8>,
    aux: Seq<u8>,
)
    requires
        first.index() == second.index(),
    ensures
        first.output_for(data) == second.output_for(data),
        ticket(first.output_for(data)) == ticket(second.output_for(data)),
        first.ietf_signature(data, aux) == second.ietf_signature(data, aux),
{
}

/// A ring signature that carries a prover's output for an input, once
/// accepted, gives the ticket of that output: two such signatures give the
/// same ticket whatever additional data each was made and checked with.
pub proof fn lemma_ring_ticket_ignores_aux(
    prover: Prover,
    ring_size: usize,
    srs: Seq<u8>,
    commitment: Seq<u8>,
    data: Seq<u8>,
    first_aux: Seq<u8>,
    first_signature: Seq<u8>,
    second_aux: Seq<u8>,
    second_signature: Seq<u8>,
)
    requires
        output_part(first_signature) == prover.output_for(data),
        output_part(second_signature) == prover.output_for(data),
        ring_verdict(ring_size, srs, commitment, data, first_aux, first_signature).is_ok(),
        ring_verdict(ring_size, srs, commitment, data, second_aux, second_signature).is_ok(),
    ensures
        ring_verdict(ring_size, srs, commitment, data, first_aux, first_signature) == Ok::<
            Seq<u8>,
            VerifyError,
        >(ticket(prover.output_for(data))),
        ring_verdict(ring_size, srs, commitment, data, second_aux, second_signature)
            == ring_verdict(ring_size, srs, commitment, data, first_aux, first_signature),
{
}

/// A ring signature and an IETF signature of one prover for one input, once
/// both are accepted, give the same ticket, whatever additional data each
/// was made and checked with and whichever index the IETF check was given.
pub proof fn lemma_modes_agree(
    prover: Prover,
    ring_size: usize,
    srs: Seq<u8>,
    commitment: Seq<u8>,
    ring: Seq<Public>,
    data: Seq<u8>,
    ring_aux: Seq<u8>,
    ring_signature: Seq<u8>,
    ietf_aux: Seq<u8>,
    ietf_signature: Seq<u8>,
    signer_key_index: usize,
)
    requires
        output_part(ring_signature) == prover.output_for(data),
        output_part(ietf_signature) == prover.output_for(data),
        ring_verdict(ring_size, srs, commitment, data, ring_aux, ring_signature).is_ok(),
        ietf_verdict(ring, data, ietf_aux, ietf_signature, signer_key_index).is_ok(),
    ensures
        ring_verdict(ring_size, srs, commitment, data, ring_aux, ring_signature) == ietf_verdict(
            ring,
            data,
            ietf_aux,
            ietf_signature,
            signer_key_index,
        ),
{
}

/// A signature that is not of the exact layout is never accepted: both
/// verdicts are `MalformedSignature` for bytes of any other length.
pub proof fn lemma_wrong_length_is_malformed(
    ring_size: usize,
    srs: Seq<u8>,
    commitment: Seq<u8>,
    ring: Seq<Public>,
    data: Seq<u8>,
    aux: Seq<u8>,
    signature: Seq<u8>,
    signer_key_index: usize,
)
    ensures
        signature.len() != 784 ==> ring_verdict(ring_size, srs, commitment, data, aux, signature)
            == Err::<Seq<u8>, VerifyError>(VerifyError::MalformedSignature),
        signature.len() != 96 ==> ietf_verdict(ring, data, aux, signature, signer_key_index)
            == Err::<Seq<u8>, VerifyError>(VerifyError::MalformedSignature),
{
}

/// Encoding a ring signature loses nothing: its parts are read back from
/// the bytes, so two signatures with the same bytes are the same, and
/// decoding what a signature encodes to gives that signature.
pub proof fn lemma_ring_signature_round_trip(first: RingVrfSignature, second: RingVrfSignature)
    requires
        first.wf(),
        second.wf(),
    ensures
        output_part(first.encoding()) == first.spec_output(),
        proof_part(first.encoding()) == first.spec_proof(),
        first.encoding() == second.encoding() ==> first.spec_output() == second.spec_output()
            && first.spec_proof() == second.spec_proof(),
{
    lemma_parts_of_joined(first.spec_output(), first.spec_proof());
    lemma_parts_of_joined(second.spec_output(), second.spec_proof());
}

/// Encoding an IETF signature loses nothing: its parts are read back from
/// the bytes, so two signatures with the same bytes are the same, and
/// decoding what a signature encodes to gives that signature.
pub proof fn lemma_ietf_signature_round_trip(first: IetfVrfSignature, second: IetfVrfSignature)
    requires
        first.wf(),
        second.wf(),
    ensures
        output_part(first.encoding()) == first.spec_output(),
        proof_part(first.encoding()) == first.spec_proof(),
        first.encoding() == second.encoding() ==> first.spec_output() == second.spec_output()
            && first.spec_proof() == second.spec_proof(),
{
    lemma_parts_of_joined(first.spec_output(), first.spec_proof());
    lemma_parts_of_joined(second.spec_output(), second.spec_proof());
}

} // verus!
