//! Public keys: the raw 32-byte form that crosses the buffer boundary, and
//! the checked form that rings are made of.

use crate::suite::{is_identity_point, is_point_encoding, point_decodes, point_is_identity};
use vstd::prelude::*;
use vstd::std_specs::convert::FromSpecImpl;

verus! {

/// Bytes of an encoded public key.
pub const PUBLIC_LEN: usize = 32;

/// A public key as a foreign caller hands it over: 32 bytes, unchecked.
#[derive(Clone, Copy, Debug)]
pub struct CPublic(pub [u8; 32]);

/// A public key known to decode to a point of the prime-order subgroup
/// other than the identity.
#[derive(Clone, Copy, Debug)]
pub struct Public {
    pub(crate) bytes: [u8; 32],
}

/// Whether 32 bytes encode a key that a ring can hold.
pub open spec fn is_public_key(bytes: Seq<u8>) -> bool {
    &&& bytes.len() == PUBLIC_LEN
    &&& is_point_encoding(bytes)
    &&& !is_identity_point(bytes)
}

impl Public {
    /// The encoding of the key.
    pub closed spec fn view(&self) -> Seq<u8> {
        self.bytes@
    }

    /// The encoding of the key, as an array.
    pub closed spec fn array(&self) -> [u8; 32] {
        self.bytes
    }

    /// The invariant: the bytes encode a usable key.
    pub open spec fn wf(&self) -> bool {
        is_public_key(self@)
    }

    /// Checks the 32 bytes and keeps them if they encode a usable key.
    pub fn from_cpublic(c_public: CPublic) -> (key: Option<Public>)
        ensures
            key.is_some() == is_public_key(c_public.0@),
            key matches Some(k) ==> k.wf() && k@ == c_public.0@,
    {
        if !point_decodes(&c_public.0) {
            return None;
        }
        if point_is_identity(&c_public.0) {
            return None;
        }
        Some(Public { bytes: c_public.0 })
    }

    /// The encoded key.
    pub fn to_bytes(&self) -> (bytes: [u8; 32])
        ensures
            bytes == self.array(),
            bytes@ == self@,
    {
        self.bytes
    }
}

impl From<Public> for CPublic {
    /// The raw form of a key: its 32 bytes.
    fn from(public: Public) -> (c_public: CPublic) {
        CPublic(public.to_bytes())
    }
}

impl FromSpecImpl<Public> for CPublic {
    open spec fn obeys_from_spec() -> bool {
        true
    }

    open spec fn from_spec(public: Public) -> CPublic {
        CPublic(public.array())
    }
}

} // verus!
