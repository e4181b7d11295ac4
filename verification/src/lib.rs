//! Wrapping of 32-byte data encryption keys under per-service key encryption keys.
//!
//! A key is wrapped by ECDH on P-256 with the key encryption key of a service, HKDF-SHA256 and
//! AES-256-GCM. The key encryption key comes from the strongest provider that has one: a TPM, a
//! PKCS#11 token, a mounted secret, encrypted files, or memory.
//!
//! - [`operations`] are wrapping and unwrapping from beginning to end.
//! - [`crypto`] is the protocol, [`payload`] its wire format, [`keys`] its key pairs.
//! - [`provider`] holds the providers and the choice among them.
//! - [`abi`] holds the rules of the C interface, [`status`] its codes and [`error`] what they
//!   stand for.
//! - [`direct_aead`] encrypts under a key that the caller supplies.
//! - [`initialize`] is the command that wraps a key into a file.
//! - [`laws`] says what all of these promise, in terms of inputs and results alone.
//! - [`primitives`] are the calls into the cryptographic crates.
//!
//! Whatever touches files, devices or the process stays with the caller: it takes the steps that
//! the library names, and hands back what came of them.
#![allow(deprecated)]

pub mod abi;
pub mod bytes;
pub mod crypto;
pub mod direct_aead;
pub mod error;
pub mod files;
pub mod initialize;
pub mod keys;
pub mod laws;
pub mod operations;
pub mod payload;
pub mod primitives;
pub mod provider;
pub mod status;
pub mod text;
