//! Random bytes, and the scrubbing of secret ones.
use rand_core::{OsRng, RngCore};
use vstd::prelude::*;
use zeroize::Zeroize;

verus! {

/// `n` zero bytes.
pub open spec fn zeros(n: nat) -> Seq<u8> {
    Seq::new(n, |i: int| 0u8)
}

/// `zeroize::Zeroize::zeroize` on a slice of bytes: every byte is zero afterwards.
#[verifier::external_body]
pub(crate) fn scrub(bytes: &mut [u8])
    ensures
        final(bytes)@ == zeros(old(bytes)@.len()),
{
    bytes.zeroize();
}

/// `zeroize::Zeroize::zeroize` on an array of bytes: every byte is zero afterwards.
#[verifier::external_body]
pub(crate) fn scrub_array<const N: usize>(bytes: &mut [u8; N])
    ensures
        final(bytes)@ == zeros(N as nat),
    no_unwind
{
    bytes.zeroize();
}

/// `rand_core::RngCore::fill_bytes` on `rand_core::OsRng`, the generator of the operating
/// system: the slice keeps its length and may hold any bytes. It panics where the operating
/// system has no randomness to give, whatever the slice.
#[verifier::external_body]
pub(crate) fn fill_random(bytes: &mut [u8])
    ensures
        final(bytes)@.len() == old(bytes)@.len(),
{
    OsRng.fill_bytes(bytes);
}

} // verus!
