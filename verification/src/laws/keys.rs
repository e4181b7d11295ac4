//! Keys, numbers and what is known of them.
use crate::error::{outcome, Error, ErrorView};
use crate::primitives::aead::{openable, sealable};
use crate::primitives::curve::{
    big_endian, from_halves, group_order, is_point, is_scalar, p256_ecdh,
};
use crate::provider::local::LocalHandle;
use crate::provider::software::Fresh;
use crate::provider::KekHandle;
use vstd::prelude::*;

verus! {

/// A key in memory agrees by ECDH of its own private half with the other side's public key, under
/// its own name, and cannot fail as long as it is one.
pub proof fn local_keys_agree_by_ecdh(handle: LocalHandle, peer: Seq<u8>)
    ensures
        handle.agreed(peer) == p256_ecdh(handle.secret(), peer),
        handle.id() == handle.name(),
        handle.infallible() == is_scalar(handle.secret()),
{
}

/// Each byte more multiplies the number that bytes spell by 256 and adds itself.
pub proof fn bytes_count_by_256(bytes: Seq<u8>, b: u8, high: u128, low: u128)
    ensures
        big_endian(Seq::empty()) == 0,
        big_endian(bytes.push(b)) == 256 * big_endian(bytes) + b,
        from_halves(high, low) == high * 0x1_0000_0000_0000_0000 * 0x1_0000_0000_0000_0000 + low,
{
    assert(bytes.push(b).drop_last() =~= bytes);
    assert(high * 0x1_0000_0000_0000_0000 * 0x1_0000_0000_0000_0000 == high * (u128::MAX + 1))
        by (nonlinear_arith);
}

/// A private key is 32 bytes that spell a number from one to one below the order of the group.
pub proof fn private_keys_are_below_the_order(bytes: Seq<u8>)
    ensures
        is_scalar(bytes) <==> bytes.len() == 32 && 1 <= big_endian(bytes) <= from_halves(
            0xffffffff00000000ffffffffffffffff,
            0xbce6faada7179e84f3b9cac2fc632550,
        ),
        group_order() == from_halves(
            0xffffffff00000000ffffffffffffffff,
            0xbce6faada7179e84f3b9cac2fc632550,
        ) + 1,
{
}

/// A public key is the byte 4 and two coordinates below the field's size that satisfy the curve's
/// equation, and nothing else is one.
pub proof fn public_keys_are_on_the_curve(bytes: Seq<u8>)
    ensures
        ({
            let x = big_endian(bytes.subrange(1, 33)) as int;
            let y = big_endian(bytes.subrange(33, 65)) as int;
            let p = from_halves(
                0xffffffff000000010000000000000000,
                0x00000000ffffffffffffffffffffffff,
            ) as int;
            let b = from_halves(
                0x5ac635d8aa3a93e7b3ebbd55769886bc,
                0x651d06b0cc53b0f63bce3c3e27d2604b,
            ) as int;
            is_point(bytes) <==> {
                &&& bytes.len() == 65
                &&& bytes[0] == 4
                &&& x < p
                &&& y < p
                &&& (y * y) % p == (x * x * x - 3 * x + b) % p
            }
        }),
{
}

/// AES-GCM takes 2^36 bytes of text and as many of associated data, and opens sixteen bytes more.
pub proof fn aes_gcm_has_its_limits(text: Seq<u8>, aad: Seq<u8>)
    ensures
        sealable(text, aad) <==> text.len() <= 68719476736 && aad.len() <= 68719476736,
        openable(text, aad) <==> text.len() <= 68719476752 && aad.len() <= 68719476736,
{
}

/// What was drawn, and what came of an operation, is seen whole.
pub proof fn results_are_seen_whole(fresh: Fresh, bytes: Vec<u8>, error: Error)
    ensures
        fresh@.vault_key == fresh.vault_key@,
        fresh@.secret_key == fresh.secret_key@,
        fresh@.nonce == fresh.nonce@,
        outcome(Ok::<Vec<u8>, Error>(bytes)) == Ok::<Seq<u8>, ErrorView>(bytes@),
        outcome(Err::<Vec<u8>, Error>(error)) == Err::<Seq<u8>, ErrorView>(error@),
{
}

} // verus!
