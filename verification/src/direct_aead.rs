//! AES-GCM encryption under a key that the caller supplies.
//!
//! What [`encrypt`] returns and [`decrypt`] reads is
//!
//! ```text
//! [12-byte nonce][ciphertext, as long as the plaintext][16-byte tag]
//! ```
//!
//! whatever the size of the key: 16, 24 or 32 bytes.
use crate::bytes::{append, part};
use crate::error::{outcome, Error, ErrorView};
use crate::primitives::aead::{
    aes128_gcm_open, aes128_gcm_seal, aes192_gcm_open, aes192_gcm_seal, aes256_gcm_open,
    aes256_gcm_seal, open_aes128, open_aes192, open_aes256, seal_aes128, seal_aes192, seal_aes256,
    sealable,
};
use crate::primitives::memory::{fill_random, scrub};
use vstd::prelude::*;
use vstd::slice::slice_to_vec;

verus! {

/// Length of the nonce.
pub const NONCE_LEN: usize = 12;

/// Length of the authentication tag.
pub const TAG_LEN: usize = 16;

/// Bytes that encryption adds to a plaintext.
pub const OVERHEAD: usize = 28;

/// Ciphertext and tag under the cipher that the key's length selects, or why there are none.
pub open spec fn sealed_parts(
    key: Seq<u8>,
    nonce: Seq<u8>,
    aad: Seq<u8>,
    plaintext: Seq<u8>,
) -> Result<(Seq<u8>, Seq<u8>), ErrorView> {
    if key.len() == 16 {
        if sealable(plaintext, aad) {
            Ok(aes128_gcm_seal(key, nonce, aad, plaintext))
        } else {
            Err(ErrorView::Crypto("AES-128-GCM encryption failed"@))
        }
    } else if key.len() == 24 {
        if sealable(plaintext, aad) {
            Ok(aes192_gcm_seal(key, nonce, aad, plaintext))
        } else {
            Err(ErrorView::Crypto("AES-192-GCM encryption failed"@))
        }
    } else if key.len() == 32 {
        if sealable(plaintext, aad) {
            Ok(aes256_gcm_seal(key, nonce, aad, plaintext))
        } else {
            Err(ErrorView::Crypto("AES-256-GCM encryption failed"@))
        }
    } else {
        Err(ErrorView::Crypto("key length must be 16, 24, or 32 bytes"@))
    }
}

/// The plaintext under the cipher that the key's length selects, or why there is none.
pub open spec fn opened_parts(
    key: Seq<u8>,
    nonce: Seq<u8>,
    aad: Seq<u8>,
    ciphertext: Seq<u8>,
    tag: Seq<u8>,
) -> Result<Seq<u8>, ErrorView> {
    if key.len() == 16 {
        match aes128_gcm_open(key, nonce, aad, ciphertext, tag) {
            Some(plaintext) => Ok(plaintext),
            None => Err(ErrorView::Crypto("AES-128-GCM authentication failed"@)),
        }
    } else if key.len() == 24 {
        match aes192_gcm_open(key, nonce, aad, ciphertext, tag) {
            Some(plaintext) => Ok(plaintext),
            None => Err(ErrorView::Crypto("AES-192-GCM authentication failed"@)),
        }
    } else if key.len() == 32 {
        match aes256_gcm_open(key, nonce, aad, ciphertext, tag) {
            Some(plaintext) => Ok(plaintext),
            None => Err(ErrorView::Crypto("AES-256-GCM authentication failed"@)),
        }
    } else {
        Err(ErrorView::Crypto("key length must be 16, 24, or 32 bytes"@))
    }
}

/// Nonce, ciphertext and tag in one run of bytes, or why there are none.
pub open spec fn sealed(
    key: Seq<u8>,
    nonce: Seq<u8>,
    plaintext: Seq<u8>,
    aad: Seq<u8>,
) -> Result<Seq<u8>, ErrorView> {
    match sealed_parts(key, nonce, aad, plaintext) {
        Ok(parts) => Ok(nonce + parts.0 + parts.1),
        Err(error) => Err(error),
    }
}

/// The plaintext in a payload of nonce, ciphertext and tag, or why there is none.
pub open spec fn opened(key: Seq<u8>, payload: Seq<u8>, aad: Seq<u8>) -> Result<
    Seq<u8>,
    ErrorView,
> {
    let body_end = payload.len() - TAG_LEN;
    if payload.len() < OVERHEAD {
        Err(ErrorView::Crypto("payload shorter than the fixed nonce+tag overhead"@))
    } else {
        opened_parts(
            key,
            payload.subrange(0, NONCE_LEN as int),
            aad,
            payload.subrange(NONCE_LEN as int, body_end),
            payload.subrange(body_end, payload.len() as int),
        )
    }
}

/// Encrypts `plaintext` under `key` (16, 24 or 32 bytes) with a fresh random nonce, and
/// authenticates `aad` with it.
///
/// The result carries its nonce in front, and decrypts to `plaintext`.
pub fn encrypt(key: &[u8], plaintext: &[u8], aad: &[u8]) -> (r: Result<Vec<u8>, Error>)
    ensures
        match r {
            Ok(out) => {
                &&& sealed(key@, out@.take(NONCE_LEN as int), plaintext@, aad@) == Ok::<
                    Seq<u8>,
                    ErrorView,
                >(out@)
                &&& out@.len() == plaintext@.len() + OVERHEAD
                &&& opened(key@, out@, aad@) == Ok::<Seq<u8>, ErrorView>(plaintext@)
            },
            Err(error) => forall|nonce: Seq<u8>|
                sealed(key@, nonce, plaintext@, aad@) == Err::<Seq<u8>, ErrorView>(error@),
        },
{
    let mut nonce: [u8; NONCE_LEN] = [0u8; NONCE_LEN];
    fill_random(&mut nonce);
    let r = encrypt_with_nonce(key, &nonce, plaintext, aad);
    assert(r matches Ok(out) ==> out@.take(NONCE_LEN as int) =~= nonce@);
    r
}

/// Encrypts `plaintext` under `key` with the given nonce, and authenticates `aad` with it.
pub fn encrypt_with_nonce(
    key: &[u8],
    nonce: &[u8; NONCE_LEN],
    plaintext: &[u8],
    aad: &[u8],
) -> (r: Result<Vec<u8>, Error>)
    ensures
        outcome(r) == sealed(key@, nonce@, plaintext@, aad@),
        r matches Ok(out) ==> {
            &&& out@.len() == plaintext@.len() + OVERHEAD
            &&& out@.take(NONCE_LEN as int) == nonce@
            &&& opened(key@, out@, aad@) == Ok::<Seq<u8>, ErrorView>(plaintext@)
        },
{
    let mut buf = slice_to_vec(plaintext);
    let tag = match seal_in_place(key, nonce, aad, buf.as_mut_slice()) {
        Ok(tag) => tag,
        Err(error) => {
            scrub(buf.as_mut_slice());
            return Err(error);
        },
    };
    let mut out: Vec<u8> = Vec::new();
    append(&mut out, nonce);
    append(&mut out, buf.as_slice());
    append(&mut out, &tag);
    proof {
        let n = plaintext@.len() as int;
        assert(out@ =~= nonce@ + buf@ + tag@);
        assert(out@.subrange(0, 12) =~= nonce@);
        assert(out@.subrange(12, 12 + n) =~= buf@);
        assert(out@.subrange(12 + n, 28 + n) =~= tag@);
        assert(out@.take(12) =~= nonce@);
    }
    Ok(out)
}

/// Decrypts what [`encrypt`] made under the same key and associated data. The caller scrubs the
/// plaintext after use.
pub fn decrypt(key: &[u8], payload: &[u8], aad: &[u8]) -> (r: Result<Vec<u8>, Error>)
    ensures
        outcome(r) == opened(key@, payload@, aad@),
        r matches Ok(plaintext) ==> plaintext@.len() + OVERHEAD == payload@.len(),
{
    if payload.len() < OVERHEAD {
        return Err(Error::Crypto("payload shorter than the fixed nonce+tag overhead"));
    }
    let body_end: usize = payload.len() - TAG_LEN;
    let nonce = part(payload, 0, NONCE_LEN);
    let mut buf = part(payload, NONCE_LEN, body_end);
    let tag = part(payload, body_end, payload.len());
    match open_in_place(key, nonce.as_slice(), aad, buf.as_mut_slice(), tag.as_slice()) {
        Ok(_) => Ok(buf),
        Err(error) => Err(error),
    }
}

/// Encrypts `buf` in place and returns the tag. On failure `buf` is as it was.
pub fn seal_in_place(key: &[u8], nonce: &[u8], aad: &[u8], buf: &mut [u8]) -> (r: Result<
    [u8; TAG_LEN],
    Error,
>)
    requires
        nonce@.len() == NONCE_LEN,
    ensures
        match r {
            Ok(tag) => {
                &&& sealed_parts(key@, nonce@, aad@, old(buf)@) == Ok::<
                    (Seq<u8>, Seq<u8>),
                    ErrorView,
                >((final(buf)@, tag@))
                &&& final(buf)@.len() == old(buf)@.len()
                &&& key@.len() == 16 ==> (final(buf)@, tag@) == aes128_gcm_seal(
                    key@,
                    nonce@,
                    aad@,
                    old(buf)@,
                )
                &&& key@.len() == 24 ==> (final(buf)@, tag@) == aes192_gcm_seal(
                    key@,
                    nonce@,
                    aad@,
                    old(buf)@,
                )
                &&& key@.len() == 32 ==> (final(buf)@, tag@) == aes256_gcm_seal(
                    key@,
                    nonce@,
                    aad@,
                    old(buf)@,
                )
                &&& opened_parts(key@, nonce@, aad@, final(buf)@, tag@) == Ok::<
                    Seq<u8>,
                    ErrorView,
                >(old(buf)@)
            },
            Err(error) => {
                &&& sealed_parts(key@, nonce@, aad@, old(buf)@) == Err::<
                    (Seq<u8>, Seq<u8>),
                    ErrorView,
                >(error@)
                &&& final(buf)@ == old(buf)@
            },
        },
{
    match key.len() {
        16 => match seal_aes128(key, nonce, aad, buf) {
            Ok(tag) => Ok(tag),
            Err(_) => Err(Error::Crypto("AES-128-GCM encryption failed")),
        },
        24 => match seal_aes192(key, nonce, aad, buf) {
            Ok(tag) => Ok(tag),
            Err(_) => Err(Error::Crypto("AES-192-GCM encryption failed")),
        },
        32 => match seal_aes256(key, nonce, aad, buf) {
            Ok(tag) => Ok(tag),
            Err(_) => Err(Error::Crypto("AES-256-GCM encryption failed")),
        },
        _ => Err(Error::Crypto("key length must be 16, 24, or 32 bytes")),
    }
}

/// Decrypts `buf` in place. On failure `buf` is as it was.
pub fn open_in_place(key: &[u8], nonce: &[u8], aad: &[u8], buf: &mut [u8], tag: &[u8]) -> (r:
    Result<(), Error>)
    requires
        nonce@.len() == NONCE_LEN,
        tag@.len() == TAG_LEN,
    ensures
        final(buf)@.len() == old(buf)@.len(),
        match r {
            Ok(_) => opened_parts(key@, nonce@, aad@, old(buf)@, tag@) == Ok::<Seq<u8>, ErrorView>(
                final(buf)@,
            ),
            Err(error) => {
                &&& opened_parts(key@, nonce@, aad@, old(buf)@, tag@) == Err::<Seq<u8>, ErrorView>(
                    error@,
                )
                &&& final(buf)@ == old(buf)@
            },
        },
{
    match key.len() {
        16 => match open_aes128(key, nonce, aad, buf, tag) {
            Ok(_) => Ok(()),
            Err(_) => Err(Error::Crypto("AES-128-GCM authentication failed")),
        },
        24 => match open_aes192(key, nonce, aad, buf, tag) {
            Ok(_) => Ok(()),
            Err(_) => Err(Error::Crypto("AES-192-GCM authentication failed")),
        },
        32 => match open_aes256(key, nonce, aad, buf, tag) {
            Ok(_) => Ok(()),
            Err(_) => Err(Error::Crypto("AES-256-GCM authentication failed")),
        },
        _ => Err(Error::Crypto("key length must be 16, 24, or 32 bytes")),
    }
}

} // verus!
