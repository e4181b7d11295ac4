//! The wrapping protocol: ECDH on P-256, HKDF-SHA256, AES-256-GCM.
//!
//! Every provider gives a [`KekHandle`]; only this module sees the key being wrapped.
use crate::bytes::{append, array_from, part};
use crate::error::{outcome, Error, ErrorView};
use crate::keys::{PublicKey, SecretKey, SharedSecret};
use crate::payload::{payload_round_trips, Payload, PayloadView, NONCE_LEN};
use crate::primitives::aead::{aes256_gcm_open, aes256_gcm_seal, open_aes256, seal_aes256};
use crate::primitives::curve::{is_point, is_scalar, p256_public};
use crate::primitives::digest::{hkdf_sha256, hkdf_sha256_expand};
use crate::primitives::memory::{fill_random, scrub};
use crate::provider::{KekHandle, ProviderType};
use crate::text::utf8_is_injective;
use vstd::prelude::*;
use vstd::slice::slice_to_vec;
use vstd::utf8::encode_utf8;

verus! {

/// Length of a data encryption key.
pub const DEK_LEN: usize = 32;

/// Length of the authentication tag.
pub const TAG_LEN: usize = 16;

/// Length of a wrapped data encryption key with its tag.
pub const WRAPPED_DEK_LEN: usize = 48;

/// Length of a wrapped key's payload without the name of the key encryption key.
pub const WRAPPING_OVERHEAD: usize = 133;

/// The context that separates the wrapping keys of different services.
pub open spec fn hkdf_info(service: Seq<char>) -> Seq<u8> {
    encode_utf8("hkdfguard-wrap-v1:"@) + encode_utf8(service)
}

/// The data that is authenticated with every wrapped key.
pub open spec fn dek_aad() -> Seq<u8> {
    encode_utf8("hkdfguard-dek-v1"@)
}

/// The AES key that a shared secret gives for a service.
pub open spec fn wrapping_key(shared: Seq<u8>, service: Seq<char>) -> Seq<u8> {
    hkdf_sha256(shared, hkdf_info(service), 32)
}

/// The payload that holds `dek`, sealed for `service` under a shared secret.
pub open spec fn wrapped_payload(
    service: Seq<char>,
    provider_type: ProviderType,
    key_id: Seq<u8>,
    point: Seq<u8>,
    shared: Seq<u8>,
    nonce: Seq<u8>,
    dek: Seq<u8>,
) -> PayloadView {
    let parts = aes256_gcm_seal(wrapping_key(shared, service), nonce, dek_aad(), dek);
    PayloadView {
        provider_type,
        key_id,
        ephemeral_public_key: point,
        nonce,
        ciphertext: parts.0 + parts.1,
    }
}

/// The payload in `wrapped`, or why it cannot hold a wrapped key.
pub open spec fn wrapped_parts(wrapped: Seq<u8>) -> Result<PayloadView, ErrorView> {
    match PayloadView::parse(wrapped) {
        Ok(payload) => if payload.ciphertext.len() != WRAPPED_DEK_LEN {
            Err(ErrorView::Crypto("wrapped ciphertext has unexpected length"@))
        } else {
            Ok(payload)
        },
        Err(error) => Err(error),
    }
}

/// The key in a payload, given the secret shared with the payload's own key pair.
pub open spec fn opened_payload(
    service: Seq<char>,
    payload: PayloadView,
    shared: Seq<u8>,
) -> Result<Seq<u8>, ErrorView> {
    if payload.ciphertext.len() != WRAPPED_DEK_LEN {
        Err(ErrorView::Crypto("wrapped ciphertext has unexpected length"@))
    } else {
        match aes256_gcm_open(
            wrapping_key(shared, service),
            payload.nonce,
            dek_aad(),
            payload.ciphertext.subrange(0, DEK_LEN as int),
            payload.ciphertext.subrange(DEK_LEN as int, WRAPPED_DEK_LEN as int),
        ) {
            Some(dek) => Ok(dek),
            None => Err(
                ErrorView::Crypto(
                    "AES-256-GCM authentication failed (tampered, wrong service, or wrong KEK)"@,
                ),
            ),
        }
    }
}

/// The key in a payload, given what the key encryption key shares with each public key.
pub open spec fn unwrapped_payload(
    service: Seq<char>,
    payload: PayloadView,
    agreed: spec_fn(Seq<u8>) -> Seq<u8>,
) -> Result<Seq<u8>, ErrorView> {
    if payload.ciphertext.len() != WRAPPED_DEK_LEN {
        Err(ErrorView::Crypto("wrapped ciphertext has unexpected length"@))
    } else if !is_point(payload.ephemeral_public_key) {
        Err(ErrorView::Crypto("malformed ephemeral public key in wrapped payload"@))
    } else {
        opened_payload(service, payload, agreed(payload.ephemeral_public_key))
    }
}

/// The key in a run of wrapped bytes, given what the key encryption key shares with each public
/// key.
pub open spec fn unwrapped(
    service: Seq<char>,
    wrapped: Seq<u8>,
    agreed: spec_fn(Seq<u8>) -> Seq<u8>,
) -> Result<Seq<u8>, ErrorView> {
    match wrapped_parts(wrapped) {
        Ok(payload) => unwrapped_payload(service, payload, agreed),
        Err(error) => Err(error),
    }
}

/// What a handle's key encryption key shares with each public key.
pub open spec fn agreement<H: KekHandle>(handle: &H) -> spec_fn(Seq<u8>) -> Seq<u8> {
    |point: Seq<u8>| handle.agreed(point)
}

/// Wraps `dek` for `service` under the key encryption key of `handle`, with a key pair and a
/// nonce made for this one call.
///
/// The result unwraps to `dek` for the same service and key encryption key, as long as the
/// handle's name for its key fits the payload's field for it. An error is the one that the handle
/// gave when it was to agree on a secret.
pub fn wrap<H: KekHandle>(
    service: &str,
    provider_type: ProviderType,
    handle: &H,
    dek: &[u8; DEK_LEN],
) -> (r: Result<Vec<u8>, Error>)
    ensures
        handle.infallible() ==> r is Ok,
        r matches Err(error) ==> exists|peer: &PublicKey|
            is_point(peer@) && #[trigger] call_ensures(
                H::ecdh,
                (handle, peer),
                Err::<SharedSecret, Error>(error),
            ),
        r matches Ok(wrapped) ==> {
            &&& exists|point: Seq<u8>, nonce: Seq<u8>|
                #[trigger] is_wrapping(
                    wrapped@,
                    service@,
                    provider_type,
                    handle.id(),
                    point,
                    handle.agreed(point),
                    nonce,
                    dek@,
                )
            &&& handle.id().len() < 0x1_0000 ==> {
                &&& unwrapped(service@, wrapped@, agreement(handle)) == Ok::<Seq<u8>, ErrorView>(
                    dek@,
                )
                &&& wrapped_parts(wrapped@) matches Ok(payload) && payload.provider_type
                    == provider_type && payload.key_id == handle.id()
            }
        },
{
    let session = WrapSession::new();
    let shared = match handle.ecdh(session.peer()) {
        Ok(shared) => shared,
        Err(error) => return Err(error),
    };
    session.finish(service, provider_type, handle.key_id(), shared, dek)
}

/// The key pair and the nonce of one wrapping. The private half is gone once the pair is made:
/// the secret is agreed on with the key encryption key.
pub struct WrapSession {
    ephemeral_public: PublicKey,
    nonce: [u8; NONCE_LEN],
}

impl WrapSession {
    /// The public half of the key pair.
    pub closed spec fn point(&self) -> Seq<u8> {
        self.ephemeral_public@
    }

    /// The nonce.
    pub closed spec fn nonce(&self) -> Seq<u8> {
        self.nonce@
    }

    /// A fresh random key pair and nonce.
    pub fn new() -> (session: Self)
        ensures
            is_point(session.point()),
            exists|secret: Seq<u8>|
                is_scalar(secret) && session.point() == #[trigger] p256_public(secret),
            session.nonce().len() == NONCE_LEN,
    {
        let mut ephemeral_secret = SecretKey::random();
        let ghost secret = ephemeral_secret@;
        let ephemeral_public = ephemeral_secret.public_key();
        assert(ephemeral_public@ == p256_public(secret));
        ephemeral_secret.erase();
        let mut nonce: [u8; NONCE_LEN] = [0u8; NONCE_LEN];
        fill_random(&mut nonce);
        WrapSession { ephemeral_public, nonce }
    }

    /// The public half, to agree on a secret with.
    pub fn peer(&self) -> (key: &PublicKey)
        ensures
            key@ == self.point(),
    {
        &self.ephemeral_public
    }

    /// Wraps `dek` for `service` under the secret that was agreed on. The secret is scrubbed.
    pub fn finish(
        self,
        service: &str,
        provider_type: ProviderType,
        key_id: &[u8],
        shared: SharedSecret,
        dek: &[u8; DEK_LEN],
    ) -> (r: Result<Vec<u8>, Error>)
        ensures
            r is Ok,
            is_wrapping(
                r->Ok_0@,
                service@,
                provider_type,
                key_id@,
                self.point(),
                shared@,
                self.nonce(),
                dek@,
            ),
    {
        let mut shared = shared;
        let r = wrap_with(
            service,
            provider_type,
            key_id,
            &self.ephemeral_public,
            &shared,
            &self.nonce,
            dek,
        );
        scrub(&mut shared);
        r
    }
}

/// Whether `wrapped` is the payload of a wrapping, on the wire. Such a payload has a known length,
/// opens to the key under the same shared secret, and is read back from the wire where the name
/// of the key encryption key fits its field.
pub open spec fn is_wrapping(
    wrapped: Seq<u8>,
    service: Seq<char>,
    provider_type: ProviderType,
    key_id: Seq<u8>,
    point: Seq<u8>,
    shared: Seq<u8>,
    nonce: Seq<u8>,
    dek: Seq<u8>,
) -> bool {
    let payload = wrapped_payload(service, provider_type, key_id, point, shared, nonce, dek);
    &&& wrapped == payload.serialize()
    &&& wrapped.len() == WRAPPING_OVERHEAD + key_id.len()
    &&& is_point(point)
    &&& nonce.len() == NONCE_LEN
    &&& opened_payload(service, payload, shared) == Ok::<Seq<u8>, ErrorView>(dek)
    &&& key_id.len() < 0x1_0000 ==> wrapped_parts(wrapped) == Ok::<PayloadView, ErrorView>(payload)
}

/// Wraps `dek` for `service` under a shared secret that was agreed on with the private half of
/// `ephemeral_public`.
pub fn wrap_with(
    service: &str,
    provider_type: ProviderType,
    key_id: &[u8],
    ephemeral_public: &PublicKey,
    shared: &SharedSecret,
    nonce: &[u8; NONCE_LEN],
    dek: &[u8; DEK_LEN],
) -> (r: Result<Vec<u8>, Error>)
    ensures
        r is Ok,
        is_wrapping(
            r->Ok_0@,
            service@,
            provider_type,
            key_id@,
            ephemeral_public@,
            shared@,
            nonce@,
            dek@,
        ),
{
    let mut key = derive_wrapping_key(shared, service)?;
    let mut ct_buf: [u8; DEK_LEN] = *dek;
    let sealed = seal_aes256(&key, nonce, "hkdfguard-dek-v1".as_bytes(), &mut ct_buf);
    scrub(&mut key);
    proof {
        aad_is_short();
    }
    let tag = match sealed {
        Ok(tag) => tag,
        Err(_) => return Err(Error::Crypto("AES-256-GCM encryption failed")),
    };
    let mut ciphertext: Vec<u8> = Vec::new();
    append(&mut ciphertext, &ct_buf);
    append(&mut ciphertext, &tag);
    let payload = Payload {
        provider_type,
        key_id: slice_to_vec(key_id),
        ephemeral_public_key: ephemeral_public.to_bytes(),
        nonce: *nonce,
        ciphertext,
    };
    let out = payload.to_bytes();
    proof {
        assert(payload@.ciphertext =~= ct_buf@ + tag@);
        assert(payload@ =~= wrapped_payload(
            service@,
            provider_type,
            key_id@,
            ephemeral_public@,
            shared@,
            nonce@,
            dek@,
        ));
        assert(payload@.ciphertext.subrange(0, 32) =~= ct_buf@);
        assert(payload@.ciphertext.subrange(32, 48) =~= tag@);
        if key_id@.len() < 0x1_0000 {
            payload_round_trips(payload@);
        }
    }
    Ok(out)
}

/// Reads the payload in `wrapped` and checks that it can hold a wrapped key. The payload names
/// the provider whose key encryption key opens it.
pub fn read_wrapped(wrapped: &[u8]) -> (r: Result<Payload, Error>)
    ensures
        outcome(r) == wrapped_parts(wrapped@),
{
    let payload = Payload::from_bytes(wrapped)?;
    if payload.ciphertext.len() != WRAPPED_DEK_LEN {
        return Err(Error::Crypto("wrapped ciphertext has unexpected length"));
    }
    Ok(payload)
}

/// Unwraps the key in `payload`, which was wrapped for `service` under the key encryption key of
/// `handle`. An error that is not the payload's is the one that the handle gave when it was to
/// agree on a secret.
pub fn unwrap<H: KekHandle>(service: &str, payload: &Payload, handle: &H) -> (r: Result<
    [u8; DEK_LEN],
    Error,
>)
    ensures
        handle.infallible() || r is Ok || payload@.ciphertext.len() != WRAPPED_DEK_LEN || !is_point(
            payload@.ephemeral_public_key,
        ) ==> outcome(r) == unwrapped_payload(service@, payload@, agreement(handle)),
        r matches Err(error) ==> outcome(r) == unwrapped_payload(
            service@,
            payload@,
            agreement(handle),
        ) || exists|peer: &PublicKey|
            peer@ == payload@.ephemeral_public_key && #[trigger] call_ensures(
                H::ecdh,
                (handle, peer),
                Err::<SharedSecret, Error>(error),
            ),
{
    if payload.ciphertext.len() != WRAPPED_DEK_LEN {
        return Err(Error::Crypto("wrapped ciphertext has unexpected length"));
    }
    let ephemeral_public = ephemeral_key(payload)?;
    let mut shared = match handle.ecdh(&ephemeral_public) {
        Ok(shared) => shared,
        Err(error) => return Err(error),
    };
    let r = unwrap_with(service, payload, &shared);
    scrub(&mut shared);
    r
}

/// The public key in `payload`, to agree on a secret with.
pub fn ephemeral_key(payload: &Payload) -> (r: Result<PublicKey, Error>)
    ensures
        match r {
            Ok(key) => {
                &&& is_point(payload@.ephemeral_public_key)
                &&& key@ == payload@.ephemeral_public_key
            },
            Err(error) => {
                &&& !is_point(payload@.ephemeral_public_key)
                &&& error@ == ErrorView::Crypto(
                    "malformed ephemeral public key in wrapped payload"@,
                )
            },
        },
{
    match PublicKey::from_sec1_bytes(&payload.ephemeral_public_key) {
        Some(key) => Ok(key),
        None => Err(Error::Crypto("malformed ephemeral public key in wrapped payload")),
    }
}

/// Unwraps the key in `payload`, given the secret shared with the payload's own key pair.
pub fn unwrap_with(service: &str, payload: &Payload, shared: &SharedSecret) -> (r: Result<
    [u8; DEK_LEN],
    Error,
>)
    ensures
        outcome(r) == opened_payload(service@, payload@, shared@),
{
    if payload.ciphertext.len() != WRAPPED_DEK_LEN {
        return Err(Error::Crypto("wrapped ciphertext has unexpected length"));
    }
    let mut key = derive_wrapping_key(shared, service)?;
    let ciphertext = part(payload.ciphertext.as_slice(), 0, DEK_LEN);
    let tag = part(payload.ciphertext.as_slice(), DEK_LEN, WRAPPED_DEK_LEN);
    let mut dek: [u8; DEK_LEN] = array_from(ciphertext.as_slice());
    let opened = open_aes256(
        &key,
        &payload.nonce,
        "hkdfguard-dek-v1".as_bytes(),
        &mut dek,
        tag.as_slice(),
    );
    scrub(&mut key);
    if opened.is_err() {
        scrub(&mut dek);
        return Err(
            Error::Crypto(
                "AES-256-GCM authentication failed (tampered, wrong service, or wrong KEK)",
            ),
        );
    }
    Ok(dek)
}

/// Derives the AES key that a shared secret gives for a service.
pub fn derive_wrapping_key(shared: &SharedSecret, service: &str) -> (r: Result<[u8; 32], Error>)
    ensures
        r is Ok,
        r->Ok_0@ == wrapping_key(shared@, service@),
        r->Ok_0@ == hkdf_sha256(
            shared@,
            encode_utf8("hkdfguard-wrap-v1:"@) + encode_utf8(service@),
            32,
        ),
{
    let mut info = slice_to_vec("hkdfguard-wrap-v1:".as_bytes());
    append(&mut info, service.as_bytes());
    let mut key: [u8; 32] = [0u8; 32];
    match hkdf_sha256_expand(shared, info.as_slice(), &mut key) {
        Ok(_) => Ok(key),
        Err(_) => Err(Error::Crypto("HKDF-SHA256 expand failed")),
    }
}

/// The authenticated data is far below AES-GCM's limit.
proof fn aad_is_short()
    ensures
        dek_aad().len() == 16,
{
    reveal_strlit("hkdfguard-dek-v1");
    vstd::utf8::is_ascii_chars_encode_utf8("hkdfguard-dek-v1"@);
}

/// Different services never share a context for key derivation.
pub proof fn services_have_distinct_contexts(a: Seq<char>, b: Seq<char>)
    requires
        hkdf_info(a) == hkdf_info(b),
    ensures
        a == b,
{
    let prefix = encode_utf8("hkdfguard-wrap-v1:"@);
    let n = prefix.len() as int;
    assert(hkdf_info(a).skip(n) =~= encode_utf8(a));
    assert(hkdf_info(b).skip(n) =~= encode_utf8(b));
    utf8_is_injective(a, b);
}

} // verus!
