//! Verified core of the wicrs client's identity handshake: the signed
//! challenge/response exchange that upgrades an anonymous socket into a
//! mutually authenticated session, plus the key lifecycle it depends on.
//!
//! The crate is organised leaf-first: [`hexcodec`] and [`armor`] hold the
//! printable encodings, [`crypto`] the trusted boundary to the signature
//! scheme, [`keys`] and [`keystore`] the identity types and their
//! persistence, [`envelope`] and [`wire`] the signed wire unit, and
//! [`handshake`] the state machine that drives one connection attempt.

pub mod armor;
pub mod bytesutil;
pub mod crypto;
pub mod envelope;
pub mod errors;
pub mod handshake;
pub mod hexcodec;
pub mod keys;
pub mod keystore;
pub mod wire;
