//! The curve and proof suite as this library sees it: byte strings in, byte
//! strings out. Every `external_body` function here is a statement about
//! `ark-vrf` that is believed, not proved. A spec function without a body
//! names what one call returns; nothing else is claimed of it than what the
//! function that makes the call says.

use crate::keys::Public;
use ark_vrf::reexports::ark_ec::AffineRepr;
use ark_vrf::reexports::ark_serialize::{CanonicalDeserialize, CanonicalSerialize};
use ark_vrf::suites::bandersnatch;
use ark_vrf::suites::bandersnatch::{
    IetfProof, Input, Output, PcsParams, RingCommitment, RingProof, RingProofParams, Secret,
};
use vstd::bytes::spec_u64_from_le_bytes;
use vstd::prelude::*;

verus! {

/// Bytes of a compressed curve point.
pub const POINT_LEN: usize = 32;

/// Bytes of an IETF proof: a 32-byte challenge and a 32-byte response.
pub const IETF_PROOF_LEN: usize = 64;

/// Bytes of a ring proof: the Pedersen proof (three points, two scalars)
/// and the ring membership proof.
pub const RING_PROOF_LEN: usize = 752;

/// Bytes of the hash of an output point (SHA-512).
pub const OUTPUT_HASH_LEN: usize = 64;

/// Bytes of a compressed ring commitment: three KZG commitments.
pub const COMMITMENT_LEN: usize = 144;

/// Whether the bytes start with the compressed encoding of a point of the
/// prime-order subgroup: whether checked decoding of a point accepts them.
pub uninterp spec fn is_point_encoding(bytes: Seq<u8>) -> bool;

/// Whether the point that the bytes decode to is the group identity.
pub uninterp spec fn is_identity_point(bytes: Seq<u8>) -> bool;

/// The compressed input point that the data hashes to, where hashing to
/// the curve yields one.
pub uninterp spec fn input_point(data: Seq<u8>) -> Option<Seq<u8>>;

/// Whether hashing the data to the curve yields a point.
pub open spec fn has_input_point(data: Seq<u8>) -> bool {
    input_point(data).is_some()
}

/// The compressed public key of the secret derived from `seed`.
pub uninterp spec fn public_key(seed: Seq<u8>) -> Seq<u8>;

/// The compressed output point for the secret derived from `seed` and the
/// input point that `data` hashes to.
pub uninterp spec fn vrf_output(seed: Seq<u8>, data: Seq<u8>) -> Seq<u8>;

/// The 64-byte hash of an encoded output point.
pub uninterp spec fn output_hash(output: Seq<u8>) -> Seq<u8>;

/// Whether the bytes start with the encoding of an IETF proof.
pub uninterp spec fn is_ietf_proof(bytes: Seq<u8>) -> bool;

/// The encoded IETF proof for the secret derived from `seed`, the input
/// that `data` hashes to and the additional data `aux`.
pub uninterp spec fn ietf_proof(seed: Seq<u8>, data: Seq<u8>, aux: Seq<u8>) -> Seq<u8>;

/// Whether the IETF verifier accepts: key, output and proof decode, the
/// data hashes to a point, and the proof relation holds.
pub uninterp spec fn ietf_accepts(
    public: Seq<u8>,
    data: Seq<u8>,
    aux: Seq<u8>,
    output: Seq<u8>,
    proof: Seq<u8>,
) -> bool;

/// Whether the bytes start with the encoding of a ring proof.
pub uninterp spec fn is_ring_proof(bytes: Seq<u8>) -> bool;

/// Whether `srs` decodes, unchecked and uncompressed, as a KZG reference
/// string long enough for rings of `ring_size` keys.
pub uninterp spec fn srs_fits(ring_size: int, srs: Seq<u8>) -> bool;

/// The compressed commitment to the ring `keys` under the parameters built
/// from `ring_size` and `srs`.
pub uninterp spec fn ring_commitment(ring_size: int, srs: Seq<u8>, keys: Seq<Seq<u8>>) -> Seq<u8>;

/// Whether the ring verifier accepts: the parameters build, commitment,
/// output and proof decode, the data hashes to a point, and both the
/// Pedersen and the ring membership relation hold.
pub uninterp spec fn ring_accepts(
    ring_size: int,
    srs: Seq<u8>,
    commitment: Seq<u8>,
    data: Seq<u8>,
    aux: Seq<u8>,
    output: Seq<u8>,
    proof: Seq<u8>,
) -> bool;

/// The encodings of the keys of a ring, in order.
pub open spec fn ring_keys(ring: Seq<Public>) -> Seq<Seq<u8>> {
    Seq::new(ring.len(), |i: int| ring[i]@)
}

/// Bytes of the count that precedes each list of points in a reference
/// string.
pub const COUNT_LEN: usize = 8;

/// Bytes of an uncompressed point of the first pairing group.
pub const G1_LEN: usize = 96;

/// Bytes of an uncompressed point of the second pairing group.
pub const G2_LEN: usize = 192;

/// The number of points of the first group that a reference string
/// announces: its first eight bytes, little-endian.
pub open spec fn g1_count(srs: Seq<u8>) -> nat {
    spec_u64_from_le_bytes(srs.subrange(0, COUNT_LEN as int)) as nat
}

/// Where the count of the second list stands.
pub open spec fn g2_count_at(srs: Seq<u8>) -> int {
    COUNT_LEN + G1_LEN * g1_count(srs)
}

/// The number of points of the second group that a reference string
/// announces, after the points of the first.
pub open spec fn g2_count(srs: Seq<u8>) -> nat {
    spec_u64_from_le_bytes(srs.subrange(g2_count_at(srs), g2_count_at(srs) + COUNT_LEN)) as nat
}

/// Whether a reference string holds as many bytes as its two counts
/// announce: a count, that many points of the first group, a count, that
/// many points of the second. Bytes after them are allowed.
pub open spec fn srs_framed(srs: Seq<u8>) -> bool {
    &&& srs.len() >= 2 * COUNT_LEN
    &&& g2_count_at(srs) + COUNT_LEN <= srs.len()
    &&& g2_count_at(srs) + COUNT_LEN + G2_LEN * g2_count(srs) <= srs.len()
}

/// Largest ring size whose evaluation domain, 2^30 rows at most, the
/// scalar field of the pairing supports: the proof system evaluates over
/// four times the domain, and the field has 2^32 roots of unity.
pub const RING_SIZE_LIMIT: usize = 1_073_741_567;

/// Rows of the evaluation domain that hold no key: three blinding rows, one
/// unconstrained row and one row per bit of a scalar.
pub const DOMAIN_OVERHEAD: usize = 257;

/// The first of `p`, `2p`, `4p`, ... that is at least `n`.
pub open spec fn doubled_up_to(n: nat, p: nat) -> nat
    decreases (if p < n { n - p } else { 0 }),
{
    if p >= n || p == 0 {
        p
    } else {
        doubled_up_to(n, 2 * p)
    }
}

/// Size of the evaluation domain for rings of `ring_size` keys: the least
/// power of two that holds the keys and the overhead.
pub open spec fn domain_size(ring_size: nat) -> nat {
    doubled_up_to(ring_size + DOMAIN_OVERHEAD as nat, 1)
}

/// Number of key slots in the domain for rings of `ring_size` keys.
pub open spec fn ring_capacity(ring_size: nat) -> int {
    domain_size(ring_size) - DOMAIN_OVERHEAD as int
}

/// Calls `Public::deserialize_compressed` (checked decoding of a compressed
/// point) on the 32 bytes and reports whether it returned a point.
#[verifier::external_body]
pub(crate) fn point_decodes(bytes: &[u8; 32]) -> (ok: bool)
    ensures
        ok == is_point_encoding(bytes@),
{
    bandersnatch::Public::deserialize_compressed(&bytes[..]).is_ok()
}

/// Decodes the point and calls `AffineRepr::is_zero` on it.
#[verifier::external_body]
pub(crate) fn point_is_identity(bytes: &[u8; 32]) -> (zero: bool)
    requires
        is_point_encoding(bytes@),
    ensures
        zero == is_identity_point(bytes@),
{
    match bandersnatch::Public::deserialize_compressed(&bytes[..]) {
        Ok(point) => point.0.is_zero(),
        Err(_) => false,
    }
}

/// Calls `Input::new` (Elligator2 hash to curve) and gives the point it
/// returned, compressed to 32 bytes, or `None` where it returned none.
#[verifier::external_body]
pub(crate) fn vrf_input_point(vrf_input_data: &[u8]) -> (point: Option<Vec<u8>>)
    ensures
        match point {
            Some(p) => input_point(vrf_input_data@) == Some(p@) && p@.len() == POINT_LEN,
            None => input_point(vrf_input_data@).is_none(),
        },
{
    let input = Input::new(vrf_input_data)?;
    let mut point = Vec::new();
    input.serialize_compressed(&mut point).unwrap();
    Some(point)
}

/// Calls `Secret::public` on the secret that `Secret::from_seed` derives
/// by hashing the seed. The result is the compressed point, 32 bytes.
#[verifier::external_body]
pub(crate) fn public_of(seed: &[u8]) -> (public: Vec<u8>)
    ensures
        public@ == public_key(seed@),
        public@.len() == POINT_LEN,
{
    let mut public = Vec::new();
    Secret::from_seed(seed).public().serialize_compressed(&mut public).unwrap();
    public
}

/// Calls `Secret::output` for the secret that `Secret::from_seed` derives
/// and the point that `Input::new` hashes `data` to. The result is the
/// compressed point, 32 bytes.
#[verifier::external_body]
pub(crate) fn output_point(seed: &[u8], data: &[u8]) -> (out: Vec<u8>)
    requires
        has_input_point(data@),
    ensures
        out@ == vrf_output(seed@, data@),
        out@.len() == POINT_LEN,
{
    let input = Input::new(data).unwrap();
    let mut out = Vec::new();
    Secret::from_seed(seed).output(input).serialize_compressed(&mut out).unwrap();
    out
}

/// Calls `Output::hash` (SHA-512 over the suite tag and the encoded point)
/// on the decoded output. The result has 64 bytes. An output decodes as a
/// public key does: each is a point and nothing else.
#[verifier::external_body]
pub(crate) fn hash_output(output: &[u8; 32]) -> (hash: Vec<u8>)
    requires
        is_point_encoding(output@),
    ensures
        hash@ == output_hash(output@),
        hash@.len() == OUTPUT_HASH_LEN,
{
    Output::deserialize_compressed(&output[..]).unwrap().hash().to_vec()
}

/// Calls `IetfProof::deserialize_compressed` and reports whether it
/// returned a proof.
#[verifier::external_body]
pub(crate) fn ietf_proof_decodes(bytes: &[u8]) -> (ok: bool)
    ensures
        ok == is_ietf_proof(bytes@),
{
    IetfProof::deserialize_compressed(bytes).is_ok()
}

/// Calls `ietf::Prover::prove` for the secret derived from `seed`, with the
/// output that `Secret::output` gives. The nonce is derived from the secret
/// and the input, so the proof is a function of the arguments. It encodes to
/// 64 bytes.
#[verifier::external_body]
pub(crate) fn ietf_prove(seed: &[u8], data: &[u8], aux: &[u8]) -> (proof: Vec<u8>)
    requires
        has_input_point(data@),
    ensures
        proof@ == ietf_proof(seed@, data@, aux@),
        proof@.len() == IETF_PROOF_LEN,
{
    let (secret, input) = (Secret::from_seed(seed), Input::new(data).unwrap());
    let proof = ark_vrf::ietf::Prover::prove(&secret, input, secret.output(input), aux);
    let mut out = Vec::new();
    proof.serialize_compressed(&mut out).unwrap();
    out
}

/// Calls `ietf::Verifier::verify` on the decoded key, output and proof and
/// the hashed input. Anything that does not decode counts as a rejection.
#[verifier::external_body]
pub(crate) fn ietf_check(
    public: &[u8; 32],
    data: &[u8],
    aux: &[u8],
    output: &[u8; 32],
    proof: &[u8],
) -> (ok: bool)
    ensures
        ok == ietf_accepts(public@, data@, aux@, output@, proof@),
{
    let key = bandersnatch::Public::deserialize_compressed(&public[..]);
    let out = Output::deserialize_compressed(&output[..]);
    match (key, Input::new(data), out, IetfProof::deserialize_compressed(proof)) {
        (Ok(k), Some(i), Ok(o), Ok(p)) => ark_vrf::ietf::Verifier::verify(&k, i, o, aux, &p).is_ok(),
        _ => false,
    }
}

/// Calls `RingProof::deserialize_compressed` and reports whether it
/// returned a proof.
#[verifier::external_body]
pub(crate) fn ring_proof_decodes(bytes: &[u8]) -> (ok: bool)
    ensures
        ok == is_ring_proof(bytes@),
{
    RingProof::deserialize_compressed(bytes).is_ok()
}

/// Decodes `srs` with `PcsParams::deserialize_uncompressed_unchecked` and
/// calls `RingProofParams::from_pcs_params`; reports whether both returned.
/// The bound on `ring_size` keeps the domain size arithmetic from
/// overflowing; the framing keeps the decoder from reserving room for more
/// points than the string holds.
#[verifier::external_body]
pub(crate) fn srs_usable(ring_size: usize, srs: &[u8]) -> (ok: bool)
    requires
        ring_size <= RING_SIZE_LIMIT,
        srs_framed(srs@),
    ensures
        ok == srs_fits(ring_size as int, srs@),
{
    match PcsParams::deserialize_uncompressed_unchecked(srs) {
        Ok(pcs) => RingProofParams::from_pcs_params(ring_size, pcs).is_ok(),
        Err(_) => false,
    }
}

/// Calls `RingProofParams::verifier_key` on the decoded ring and takes the
/// key's `commitment`, compressed: 144 bytes. Keys beyond the capacity are
/// ignored by the callee. It asserts that no key is the identity.
#[verifier::external_body]
pub(crate) fn ring_commit(ring_size: usize, srs: &[u8], ring: &Vec<Public>) -> (com: Vec<u8>)
    requires
        ring_size <= RING_SIZE_LIMIT,
        srs_framed(srs@),
        srs_fits(ring_size as int, srs@),
        forall|i: int| 0 <= i < ring@.len() ==> #[trigger] ring@[i].wf(),
    ensures
        com@ == ring_commitment(ring_size as int, srs@, ring_keys(ring@)),
        com@.len() == COMMITMENT_LEN,
{
    let pcs = PcsParams::deserialize_uncompressed_unchecked(srs).unwrap();
    let params = RingProofParams::from_pcs_params(ring_size, pcs).unwrap();
    let mut points = Vec::new();
    for key in ring.iter() {
        points.push(bandersnatch::Public::deserialize_compressed(&key.bytes[..]).unwrap().0);
    }
    let mut com = Vec::new();
    params.verifier_key(&points).commitment().serialize_compressed(&mut com).unwrap();
    com
}

/// Calls `ring::Prover::prove` for the secret derived from `seed`, with a
/// ring prover built by `RingProofParams::prover_key` and `prover` for
/// position `index`. The ring proof draws blinding values from the system's
/// random source (and fails where there is none), so only the length of the
/// encoding is stated: 752 bytes.
/// The callee indexes a table of `ring_capacity` slots with `index`, and
/// asserts that no key and no partial sum of its accumulator is the
/// identity. The sums are the accumulator base plus the key at `index` plus
/// multiples of the blinding base; with the secret's own key there, a sum
/// that vanishes would relate the generator, the blinding base and the
/// accumulator base, three points hashed to the curve independently.
#[verifier::external_body]
pub(crate) fn ring_prove(
    ring_size: usize,
    srs: &[u8],
    ring: &Vec<Public>,
    index: usize,
    seed: &[u8],
    data: &[u8],
    aux: &[u8],
) -> (proof: Vec<u8>)
    requires
        ring_size <= RING_SIZE_LIMIT,
        srs_framed(srs@),
        srs_fits(ring_size as int, srs@),
        forall|i: int| 0 <= i < ring@.len() ==> #[trigger] ring@[i].wf(),
        index < ring_capacity(ring_size as nat),
        index < ring@.len(),
        ring@[index as int]@ == public_key(seed@),
        has_input_point(data@),
    ensures
        proof@.len() == RING_PROOF_LEN,
{
    let pcs = PcsParams::deserialize_uncompressed_unchecked(srs).unwrap();
    let params = RingProofParams::from_pcs_params(ring_size, pcs).unwrap();
    let mut points = Vec::new();
    for key in ring.iter() {
        points.push(bandersnatch::Public::deserialize_compressed(&key.bytes[..]).unwrap().0);
    }
    let (secret, input) = (Secret::from_seed(seed), Input::new(data).unwrap());
    let prover = params.prover(params.prover_key(&points), index);
    let proof = ark_vrf::ring::Prover::prove(&secret, input, secret.output(input), aux, &prover);
    let mut out = Vec::new();
    proof.serialize_compressed(&mut out).unwrap();
    out
}

/// Calls `ring::Verifier::verify` with a verifier that
/// `RingProofParams::verifier_key_from_commitment` and `verifier` build from
/// the decoded commitment. Anything that does not decode or build counts as
/// a rejection.
#[verifier::external_body]
pub(crate) fn ring_check(
    ring_size: usize,
    srs: &[u8],
    commitment: &[u8],
    data: &[u8],
    aux: &[u8],
    output: &[u8; 32],
    proof: &[u8],
) -> (ok: bool)
    requires
        ring_size <= RING_SIZE_LIMIT,
        srs_framed(srs@),
    ensures
        ok == ring_accepts(ring_size as int, srs@, commitment@, data@, aux@, output@, proof@),
{
    let Ok(pcs) = PcsParams::deserialize_uncompressed_unchecked(srs) else { return false };
    let Ok(params) = RingProofParams::from_pcs_params(ring_size, pcs) else { return false };
    let (com, out) = (RingCommitment::deserialize_compressed(commitment), Output::deserialize_compressed(&output[..]));
    match (com, Input::new(data), out, RingProof::deserialize_compressed(proof)) {
        (Ok(c), Some(i), Ok(o), Ok(p)) => {
            let verifier = params.verifier(params.verifier_key_from_commitment(c));
            <bandersnatch::Public as ark_vrf::ring::Verifier<_>>::verify(i, o, aux, &p, &verifier).is_ok()
        },
        _ => false,
    }
}

} // verus!
