//! The cryptographic building blocks, each a call into an outside crate.
pub mod aead;
pub mod curve;
pub mod digest;
pub mod memory;
