//! Keys on the P-256 curve, as bytes.
use elliptic_curve::pkcs8::{DecodePrivateKey, EncodePrivateKey};
use elliptic_curve::sec1::ToEncodedPoint;
use rand_core::OsRng;
use vstd::prelude::*;

verus! {

/// The number that `bytes` spell, most significant byte first.
pub open spec fn big_endian(bytes: Seq<u8>) -> nat
    decreases bytes.len(),
{
    if bytes.len() == 0 {
        0
    } else {
        256 * big_endian(bytes.drop_last()) + bytes.last() as nat
    }
}

/// The number whose high and low 128 bits are given.
pub open spec fn from_halves(high: u128, low: u128) -> nat {
    (high * (u128::MAX + 1) + low) as nat
}

/// The order of the P-256 group.
pub open spec fn group_order() -> nat {
    from_halves(0xffffffff00000000ffffffffffffffff, 0xbce6faada7179e84f3b9cac2fc632551)
}

/// The size of the field that P-256 is defined over.
pub open spec fn field_size() -> nat {
    from_halves(0xffffffff000000010000000000000000, 0x00000000ffffffffffffffffffffffff)
}

/// The constant term of the P-256 equation.
pub open spec fn curve_b() -> nat {
    from_halves(0x5ac635d8aa3a93e7b3ebbd55769886bc, 0x651d06b0cc53b0f63bce3c3e27d2604b)
}

/// Whether 32 bytes are a private key: a number above zero and below the group's order.
pub open spec fn is_scalar(bytes: Seq<u8>) -> bool {
    &&& bytes.len() == 32
    &&& 0 < big_endian(bytes) < group_order()
}

/// Whether 65 bytes are a public key: the byte 4 and the two coordinates of a point on the
/// curve `y^2 = x^3 - 3x + b`.
pub open spec fn is_point(bytes: Seq<u8>) -> bool {
    let x = big_endian(bytes.subrange(1, 33)) as int;
    let y = big_endian(bytes.subrange(33, 65)) as int;
    let p = field_size() as int;
    &&& bytes.len() == 65
    &&& bytes[0] == 4
    &&& x < p
    &&& y < p
    &&& (y * y) % p == (x * x * x - 3 * x + curve_b()) % p
}

/// The public key of a private key.
pub uninterp spec fn p256_public(secret: Seq<u8>) -> Seq<u8>;

/// The secret that a private key shares with a public one.
pub uninterp spec fn p256_ecdh(secret: Seq<u8>, point: Seq<u8>) -> Seq<u8>;

/// The PKCS#8 document of a private key, or the reason that there is none.
pub uninterp spec fn pkcs8_encode(secret: Seq<u8>) -> Result<Seq<u8>, Seq<char>>;

/// The private key in a PKCS#8 document, or the reason that there is none.
pub uninterp spec fn pkcs8_decode(der: Seq<u8>) -> Result<Seq<u8>, Seq<char>>;

/// `p256::SecretKey::random` on `rand_core::OsRng`, and `to_bytes` on the key: any private key
/// may come back. It panics where the operating system has no randomness to give.
#[verifier::external_body]
pub(crate) fn random_scalar() -> (secret: [u8; 32])
    ensures
        is_scalar(secret@),
{
    p256::SecretKey::random(&mut OsRng).to_bytes().into()
}

/// `p256::SecretKey::from_slice` on 32 bytes: the bytes are taken as they are where they are a
/// private key; where they are not, the error reads `crypto error`.
#[verifier::external_body]
pub(crate) fn scalar_from_slice(bytes: &[u8; 32]) -> (r: Result<[u8; 32], String>)
    ensures
        match r {
            Ok(secret) => is_scalar(bytes@) && secret@ == bytes@,
            Err(text) => !is_scalar(bytes@) && text@ == "crypto error"@,
        },
{
    match p256::SecretKey::from_slice(bytes) {
        Ok(secret) => Ok(secret.to_bytes().into()),
        Err(e) => Err(format!("{e}")),
    }
}

/// `p256::SecretKey::public_key`, and `to_encoded_point` without compression: a public key that
/// is a function of the private one.
#[verifier::external_body]
pub(crate) fn public_point(secret: &[u8; 32]) -> (point: [u8; 65])
    requires
        is_scalar(secret@),
    ensures
        point@ == p256_public(secret@),
        is_point(point@),
{
    let key = p256::SecretKey::from_slice(secret).unwrap();
    key.public_key().to_encoded_point(false).as_bytes().try_into().unwrap()
}

/// `p256::PublicKey::from_sec1_bytes` on 65 bytes: accepted exactly where they are the
/// uncompressed encoding of a point on the curve.
#[verifier::external_body]
pub(crate) fn accepts_point(bytes: &[u8; 65]) -> (r: bool)
    ensures
        r == is_point(bytes@),
{
    p256::PublicKey::from_sec1_bytes(bytes).is_ok()
}

/// `p256::ecdh::diffie_hellman`, and `raw_secret_bytes` on the result: 32 bytes that are a
/// function of the two keys.
#[verifier::external_body]
pub(crate) fn shared_secret(secret: &[u8; 32], point: &[u8; 65]) -> (shared: [u8; 32])
    requires
        is_scalar(secret@),
        is_point(point@),
    ensures
        shared@ == p256_ecdh(secret@, point@),
{
    let key = p256::SecretKey::from_slice(secret).unwrap();
    let peer = p256::PublicKey::from_sec1_bytes(point).unwrap();
    let shared = p256::ecdh::diffie_hellman(key.to_nonzero_scalar(), peer.as_affine());
    (*shared.raw_secret_bytes()).into()
}

/// `p256::SecretKey::to_pkcs8_der`: document and error text are a function of the key, and
/// decoding the document gives the key back.
#[verifier::external_body]
pub(crate) fn scalar_to_pkcs8(secret: &[u8; 32]) -> (r: Result<Vec<u8>, String>)
    requires
        is_scalar(secret@),
    ensures
        match r {
            Ok(der) => {
                &&& pkcs8_encode(secret@) == Ok::<Seq<u8>, Seq<char>>(der@)
                &&& pkcs8_decode(der@) == Ok::<Seq<u8>, Seq<char>>(secret@)
            },
            Err(text) => pkcs8_encode(secret@) == Err::<Seq<u8>, Seq<char>>(text@),
        },
{
    match p256::SecretKey::from_slice(secret).unwrap().to_pkcs8_der() {
        Ok(der) => Ok(der.as_bytes().to_vec()),
        Err(e) => Err(format!("{e}")),
    }
}

/// `p256::SecretKey::from_pkcs8_der`, and `to_bytes` on the key: key and error text are a
/// function of the document.
#[verifier::external_body]
pub(crate) fn scalar_from_pkcs8(der: &[u8]) -> (r: Result<[u8; 32], String>)
    ensures
        match r {
            Ok(secret) => {
                &&& pkcs8_decode(der@) == Ok::<Seq<u8>, Seq<char>>(secret@)
                &&& is_scalar(secret@)
            },
            Err(text) => pkcs8_decode(der@) == Err::<Seq<u8>, Seq<char>>(text@),
        },
{
    match p256::SecretKey::from_pkcs8_der(der) {
        Ok(secret) => Ok(secret.to_bytes().into()),
        Err(e) => Err(format!("{e}")),
    }
}

} // verus!
