//! Ring and IETF verifiable random functions over Bandersnatch: the prover
//! and verifier actors, the signature layouts, the ring context and the
//! buffer-level entry points. Curve arithmetic and the proof systems are
//! those of `ark-vrf`; everything here works on their byte encodings.

pub mod bandersnatch_vrfs;
pub mod codec;
pub mod ffi;
pub mod keys;
pub mod laws;
pub mod ring_context;
pub mod suite;
