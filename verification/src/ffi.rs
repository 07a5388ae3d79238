//! The entry points behind the foreign interface, on plain values. A
//! pointer with a length arrives as an optional slice, `None` for null; a
//! handle as an optional reference; an output buffer as an optional mutable
//! array of the exact size. Each entry point rejects what is missing, empty
//! or of the wrong size, and writes to its output only when it succeeds.

use crate::bandersnatch_vrfs::{ietf_verdict, ring_verdict, ring_wf, ticket, Prover, Verifier};
use crate::codec::{leading_32, output_part, IETF_SIGNATURE_LEN, RING_SIGNATURE_LEN};
use crate::keys::{is_public_key, CPublic, Public, PUBLIC_LEN};
use crate::ring_context::RingContext;
use crate::suite::{
    has_input_point, ring_commitment, ring_keys, vrf_input_point,
};
use vstd::prelude::*;

verus! {

/// The bytes of a buffer, none where it is missing.
pub open spec fn bytes_of(buffer: Option<&[u8]>) -> Seq<u8> {
    match buffer {
        Some(b) => b@,
        None => Seq::empty(),
    }
}

/// Whether a buffer is there and holds at least one byte.
pub open spec fn is_filled(buffer: Option<&[u8]>) -> bool {
    buffer.is_some() && bytes_of(buffer).len() > 0
}

/// The raw keys of a ring, none where it is missing.
pub open spec fn keys_of(ring: Option<&[CPublic]>) -> Seq<CPublic> {
    match ring {
        Some(r) => r@,
        None => Seq::empty(),
    }
}

/// Whether every raw key of a ring encodes a usable public key.
pub open spec fn all_public_keys(ring: Seq<CPublic>) -> bool {
    forall|i: int| 0 <= i < ring.len() ==> is_public_key(#[trigger] ring[i].0@)
}

/// The encodings of the raw keys of a ring, in order.
pub open spec fn raw_keys(ring: Seq<CPublic>) -> Seq<Seq<u8>> {
    Seq::new(ring.len(), |i: int| ring[i].0@)
}

/// The size of an encoded public key: 32.
pub fn sizeof_public() -> (size: usize)
    ensures
        size == PUBLIC_LEN,
{
    PUBLIC_LEN
}

/// Reads a public key from the first 32 bytes of a buffer; `None` where the
/// buffer is missing or shorter, or the bytes encode no usable key.
pub fn public_deserialize_compressed(data: Option<&[u8]>) -> (key: Option<CPublic>)
    ensures
        key.is_some() == (data.is_some() && bytes_of(data).len() >= PUBLIC_LEN && is_public_key(
            output_part(bytes_of(data)),
        )),
        key matches Some(k) ==> k.0@ == output_part(bytes_of(data)),
{
    match data {
        None => None,
        Some(bytes) => {
            if bytes.len() < PUBLIC_LEN {
                return None;
            }
            let raw = CPublic(leading_32(bytes));
            match Public::from_cpublic(raw) {
                Some(_) => Some(raw),
                None => None,
            }
        },
    }
}

/// Checks every raw key of a ring; `None` as soon as one is no usable key.
pub fn checked_ring(ring: &[CPublic]) -> (keys: Option<Vec<Public>>)
    ensures
        keys.is_some() == all_public_keys(ring@),
        keys matches Some(k) ==> ring_wf(k@) && ring_keys(k@) == raw_keys(ring@),
{
    let mut keys: Vec<Public> = Vec::new();
    let mut i: usize = 0;
    while i < ring.len()
        invariant
            i <= ring.len(),
            keys@.len() == i,
            ring_wf(keys@),
            forall|j: int| 0 <= j < i ==> is_public_key(#[trigger] ring@[j].0@),
            forall|j: int| 0 <= j < i ==> (#[trigger] keys@[j])@ == ring@[j].0@,
        decreases ring.len() - i,
    {
        match Public::from_cpublic(ring[i]) {
            Some(key) => {
                keys.push(key);
            },
            None => {
                return None;
            },
        }
        i += 1;
    }
    assert(ring_keys(keys@) =~= raw_keys(ring@));
    Some(keys)
}

/// Writes the success flag where there is one.
fn report(success: Option<&mut bool>, value: bool)
    ensures
        success matches Some(flag) ==> *final(flag) == value,
{
    match success {
        Some(flag) => {
            *flag = value;
        },
        None => {},
    }
}

/// Copies `N` bytes into an output buffer.
fn write_out<const N: usize>(out: &mut [u8; N], bytes: &[u8])
    requires
        bytes@.len() == N,
    ensures
        final(out)@ == bytes@,
{
    let mut i: usize = 0;
    while i < N
        invariant
            i <= N,
            bytes@.len() == N,
            forall|j: int| 0 <= j < i ==> out@[j] == bytes@[j],
        decreases N - i,
    {
        out[i] = bytes[i];
        i += 1;
    }
    assert(out@ =~= bytes@);
}

/// Makes the prover of participant `prover_idx` of a ring. Fails, with the
/// flag set to `false`, where the ring or the flag is missing or a key of
/// the ring is no usable key.
pub fn prover_new(ring: Option<&[CPublic]>, prover_idx: usize, success: Option<&mut bool>) -> (prover:
    Option<Prover>)
    ensures
        prover.is_some() == (success.is_some() && ring.is_some() && all_public_keys(keys_of(ring))),
        prover matches Some(p) ==> (p.wf() && p.index() == prover_idx && ring_keys(p.ring())
            == raw_keys(keys_of(ring))),
        success matches Some(flag) ==> *final(flag) == prover.is_some(),
{
    let keys = match ring {
        Some(r) => checked_ring(r),
        None => None,
    };
    match (keys, success) {
        (Some(k), Some(flag)) => {
            *flag = true;
            Some(Prover::new(k, prover_idx))
        },
        (_, flag) => {
            report(flag, false);
            None
        },
    }
}

/// Whether `prover_ring_vrf_sign` signs: everything is there, the input
/// and the additional data hold bytes, the input hashes to a point, and the
/// prover is a member of its ring at an index within the capacity of the
/// context.
pub open spec fn ring_sign_ready(
    out_present: bool,
    ctx: &RingContext,
    prover: Option<&Prover>,
    vrf_input_data: Option<&[u8]>,
    aux_data: Option<&[u8]>,
) -> bool {
    &&& out_present
    &&& is_filled(vrf_input_data)
    &&& is_filled(aux_data)
    &&& has_input_point(bytes_of(vrf_input_data))
    &&& prover.is_some()
    &&& prover.unwrap().is_member()
    &&& prover.unwrap().index() < ctx.capacity()
}

/// Signs anonymously into a buffer of 784 bytes. Returns `false` and
/// leaves the buffer as it is unless `ring_sign_ready` holds.
pub fn prover_ring_vrf_sign(
    out: Option<&mut [u8; 784]>,
    ctx: &RingContext,
    prover: Option<&Prover>,
    vrf_input_data: Option<&[u8]>,
    aux_data: Option<&[u8]>,
) -> (ok: bool)
    ensures
        ok == ring_sign_ready(out.is_some(), ctx, prover, vrf_input_data, aux_data),
        out matches Some(o) ==> if ok {
            output_part((*final(o))@) == prover.unwrap().output_for(bytes_of(vrf_input_data))
        } else {
            (*final(o))@ == (*o)@
        },
{
    match (out, prover, vrf_input_data, aux_data) {
        (Some(buffer), Some(p), Some(input), Some(aux)) => {
            if input.len() == 0 || aux.len() == 0 {
                return false;
            }
            if vrf_input_point(input).is_none() {
                return false;
            }
            if !p.holds_own_key() || p.prover_idx() >= ctx.max_ring_size() {
                return false;
            }
            let signature = p.ring_vrf_sign(ctx, input, aux);
            write_out(buffer, signature.as_slice());
            true
        },
        _ => false,
    }
}

/// Whether `prover_ietf_vrf_sign` signs: everything is there, the input
/// and the additional data hold bytes, and the input hashes to a point.
pub open spec fn ietf_sign_ready(
    out_present: bool,
    prover: Option<&Prover>,
    vrf_input_data: Option<&[u8]>,
    aux_data: Option<&[u8]>,
) -> bool {
    &&& out_present
    &&& prover.is_some()
    &&& is_filled(vrf_input_data)
    &&& is_filled(aux_data)
    &&& has_input_point(bytes_of(vrf_input_data))
}

/// Signs under the prover's own key into a buffer of 96 bytes. Returns
/// `false` and leaves the buffer as it is unless `ietf_sign_ready` holds.
pub fn prover_ietf_vrf_sign(
    out: Option<&mut [u8; 96]>,
    prover: Option<&Prover>,
    vrf_input_data: Option<&[u8]>,
    aux_data: Option<&[u8]>,
) -> (ok: bool)
    ensures
        ok == ietf_sign_ready(out.is_some(), prover, vrf_input_data, aux_data),
        out matches Some(o) ==> if ok {
            &&& (*final(o))@ == prover.unwrap().ietf_signature(
                bytes_of(vrf_input_data),
                bytes_of(aux_data),
            )
            &&& output_part((*final(o))@) == prover.unwrap().output_for(bytes_of(vrf_input_data))
        } else {
            (*final(o))@ == (*o)@
        },
{
    match (out, prover, vrf_input_data, aux_data) {
        (Some(buffer), Some(p), Some(input), Some(aux)) => {
            if input.len() == 0 || aux.len() == 0 {
                return false;
            }
            if vrf_input_point(input).is_none() {
                return false;
            }
            let signature = p.ietf_vrf_sign(input, aux);
            write_out(buffer, signature.as_slice());
            true
        },
        _ => false,
    }
}

/// Makes the verifier of a ring. Fails, with the flag set to `false`,
/// where the ring or the flag is missing or a key of the ring is no usable
/// key.
pub fn verifier_new(ctx: &RingContext, ring: Option<&[CPublic]>, success: Option<&mut bool>) -> (verifier:
    Option<Verifier>)
    ensures
        verifier.is_some() == (success.is_some() && ring.is_some() && all_public_keys(
            keys_of(ring),
        )),
        verifier matches Some(v) ==> (v.wf() && ring_keys(v.ring()) == raw_keys(keys_of(ring))
            && v.commitment() == ring_commitment(
            ctx.size() as int,
            ctx.srs(),
            raw_keys(keys_of(ring)),
        )),
        success matches Some(flag) ==> *final(flag) == verifier.is_some(),
{
    let keys = match ring {
        Some(r) => checked_ring(r),
        None => None,
    };
    match (keys, success) {
        (Some(k), Some(flag)) => {
            *flag = true;
            Some(Verifier::new(ctx, k))
        },
        (_, flag) => {
            report(flag, false);
            None
        },
    }
}

/// Whether the buffers of a verification are all there, with bytes in the
/// input and the additional data and a signature of `signature_len` bytes.
pub open spec fn verify_buffers_ok(
    out_present: bool,
    verifier_present: bool,
    vrf_input_data: Option<&[u8]>,
    aux_data: Option<&[u8]>,
    signature: Option<&[u8]>,
    signature_len: usize,
) -> bool {
    &&& out_present
    &&& verifier_present
    &&& is_filled(vrf_input_data)
    &&& is_filled(aux_data)
    &&& signature.is_some()
    &&& bytes_of(signature).len() == signature_len
}

/// Checks an anonymous signature and writes the ticket score into a buffer
/// of 32 bytes. Returns `false` and leaves the buffer as it is where
/// something is missing or empty, the signature has not 784 bytes, or
/// verification gives an error.
pub fn verifier_ring_vrf_verify(
    out: Option<&mut [u8; 32]>,
    ctx: &RingContext,
    verifier: Option<&Verifier>,
    vrf_input_data: Option<&[u8]>,
    aux_data: Option<&[u8]>,
    signature: Option<&[u8]>,
) -> (ok: bool)
    ensures
        ok == (verify_buffers_ok(
            out.is_some(),
            verifier.is_some(),
            vrf_input_data,
            aux_data,
            signature,
            RING_SIGNATURE_LEN,
        ) && ring_verdict(
            ctx.size(),
            ctx.srs(),
            verifier.unwrap().commitment(),
            bytes_of(vrf_input_data),
            bytes_of(aux_data),
            bytes_of(signature),
        ).is_ok()),
        out matches Some(o) ==> if ok {
            (*final(o))@ == ticket(output_part(bytes_of(signature)))
        } else {
            (*final(o))@ == (*o)@
        },
{
    match (out, verifier, vrf_input_data, aux_data, signature) {
        (Some(buffer), Some(v), Some(input), Some(aux), Some(sig)) => {
            if input.len() == 0 || aux.len() == 0 || sig.len() != RING_SIGNATURE_LEN {
                return false;
            }
            match v.ring_vrf_verify(ctx, input, aux, sig) {
                Ok(hash) => {
                    write_out(buffer, hash.as_slice());
                    true
                },
                Err(_) => false,
            }
        },
        _ => false,
    }
}

/// Checks a signature against the key at `signer_key_index` and writes the
/// ticket score into a buffer of 32 bytes. Returns `false` and leaves the
/// buffer as it is where something is missing or empty, the signature has
/// not 96 bytes, or verification gives an error.
pub fn verifier_ietf_vrf_verify(
    out: Option<&mut [u8; 32]>,
    verifier: Option<&Verifier>,
    vrf_input_data: Option<&[u8]>,
    aux_data: Option<&[u8]>,
    signature: Option<&[u8]>,
    signer_key_index: usize,
) -> (ok: bool)
    ensures
        ok == (verify_buffers_ok(
            out.is_some(),
            verifier.is_some(),
            vrf_input_data,
            aux_data,
            signature,
            IETF_SIGNATURE_LEN,
        ) && ietf_verdict(
            verifier.unwrap().ring(),
            bytes_of(vrf_input_data),
            bytes_of(aux_data),
            bytes_of(signature),
            signer_key_index,
        ).is_ok()),
        out matches Some(o) ==> if ok {
            (*final(o))@ == ticket(output_part(bytes_of(signature)))
        } else {
            (*final(o))@ == (*o)@
        },
{
    match (out, verifier, vrf_input_data, aux_data, signature) {
        (Some(buffer), Some(v), Some(input), Some(aux), Some(sig)) => {
            if input.len() == 0 || aux.len() == 0 || sig.len() != IETF_SIGNATURE_LEN {
                return false;
            }
            match v.ietf_vrf_verify(input, aux, sig, signer_key_index) {
                Ok(hash) => {
                    write_out(buffer, hash.as_slice());
                    true
                },
                Err(_) => false,
            }
        },
        _ => false,
    }
}

} // verus!
