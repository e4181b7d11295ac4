//! The wrapping protocol and the direct encryption, said of the primitives that they call.
use crate::crypto::{
    agreement, hkdf_info, is_wrapping, opened_payload, unwrapped, unwrapped_payload,
    wrapped_parts, wrapping_key,
};
use crate::direct_aead::{opened, opened_parts, sealed, sealed_parts};
use crate::error::ErrorView;
use crate::operations::{
    after_agreement, after_provider, after_select, delivered, first_unwrap, selected_view,
    Agreement, UnwrapView, WrapView,
};
use crate::payload::PayloadView;
use crate::primitives::aead::{
    aes128_gcm_open, aes128_gcm_seal, aes192_gcm_open, aes192_gcm_seal, aes256_gcm_open,
    aes256_gcm_seal,
};
use crate::primitives::curve::is_point;
use crate::primitives::digest::hkdf_sha256;
use crate::provider::{KekHandle, ProviderType};
use crate::text::utf8_is_injective;
use vstd::prelude::*;
use vstd::utf8::encode_utf8;

verus! {

/// The AES key for a service is what HKDF-SHA256 derives from the whole shared secret, in 32 bytes,
/// with a fixed prefix and all bytes of the service's name as context.
pub proof fn the_whole_service_name_is_the_context(shared: Seq<u8>, service: Seq<char>)
    ensures
        wrapping_key(shared, service) == hkdf_sha256(
            shared,
            encode_utf8("hkdfguard-wrap-v1:"@) + encode_utf8(service),
            32,
        ),
        hkdf_info(service) == encode_utf8("hkdfguard-wrap-v1:"@) + encode_utf8(service),
{
}

/// Two different services hand HKDF two different contexts, so what is derived for one is derived
/// for the other only where HKDF gives the same key for different contexts.
pub proof fn different_services_derive_from_different_contexts(
    shared: Seq<u8>,
    a: Seq<char>,
    b: Seq<char>,
)
    requires
        a != b,
    ensures
        exists|x: Seq<u8>, y: Seq<u8>|
            x != y && wrapping_key(shared, a) == #[trigger] hkdf_sha256(shared, x, 32)
                && wrapping_key(shared, b) == #[trigger] hkdf_sha256(shared, y, 32)
                && x.len() == 18 + encode_utf8(a).len() && y.len() == 18 + encode_utf8(b).len(),
        encode_utf8("hkdfguard-wrap-v1:"@) + encode_utf8(a) != encode_utf8("hkdfguard-wrap-v1:"@)
            + encode_utf8(b),
{
    let prefix = encode_utf8("hkdfguard-wrap-v1:"@);
    reveal_strlit("hkdfguard-wrap-v1:");
    vstd::utf8::is_ascii_chars_encode_utf8("hkdfguard-wrap-v1:"@);
    let (x, y) = (prefix + encode_utf8(a), prefix + encode_utf8(b));
    if x == y {
        assert(x.skip(18) =~= encode_utf8(a));
        assert(y.skip(18) =~= encode_utf8(b));
        utf8_is_injective(a, b);
    }
    the_whole_service_name_is_the_context(shared, a);
    the_whole_service_name_is_the_context(shared, b);
}

/// The payload of a wrapping lies on the wire from its first byte to its last.
proof fn the_wire_holds_the_payload(wrapped: Seq<u8>, payload: PayloadView)
    requires
        wrapped == payload.serialize(),
        wrapped.len() == 133 + payload.key_id.len(),
        payload.ephemeral_public_key.len() == 65,
        payload.nonce.len() == 12,
    ensures
        ({
            let n = payload.key_id.len() as int;
            &&& wrapped[0] == 1
            &&& wrapped[1] == payload.provider_type.tag()
            &&& wrapped[2] as int == n % 256
            &&& wrapped[3] as int == n / 256 % 256
            &&& wrapped.subrange(4, 4 + n) == payload.key_id
            &&& wrapped.subrange(4 + n, 69 + n) == payload.ephemeral_public_key
            &&& wrapped.subrange(69 + n, 81 + n) == payload.nonce
            &&& wrapped.subrange(81 + n, 85 + n) == seq![48u8, 0, 0, 0]
            &&& wrapped.subrange(85 + n, 133 + n) == payload.ciphertext
            &&& payload.ciphertext.len() == 48
        }),
{
    let n = payload.key_id.len() as int;
    crate::laws::wire::fields_lie_at_their_offsets(payload);
    let lengths = wrapped.subrange(81 + n, 85 + n);
    assert(lengths =~= seq![48u8, 0, 0, 0]);
}

/// What a wrapping is made of, in its parts.
proof fn a_wrapping_has_a_payload(
    wrapped: Seq<u8>,
    service: Seq<char>,
    provider_type: ProviderType,
    key_id: Seq<u8>,
    point: Seq<u8>,
    shared: Seq<u8>,
    nonce: Seq<u8>,
    dek: Seq<u8>,
) -> (payload: PayloadView)
    requires
        is_wrapping(wrapped, service, provider_type, key_id, point, shared, nonce, dek),
    ensures
        payload.provider_type == provider_type,
        payload.key_id == key_id,
        payload.ephemeral_public_key == point,
        payload.nonce == nonce,
        payload.ciphertext == aes256_gcm_seal(
            hkdf_sha256(shared, encode_utf8("hkdfguard-wrap-v1:"@) + encode_utf8(service), 32),
            nonce,
            encode_utf8("hkdfguard-dek-v1"@),
            dek,
        ).0 + aes256_gcm_seal(
            hkdf_sha256(shared, encode_utf8("hkdfguard-wrap-v1:"@) + encode_utf8(service), 32),
            nonce,
            encode_utf8("hkdfguard-dek-v1"@),
            dek,
        ).1,
        wrapped == payload.serialize(),
        wrapped.len() == 133 + key_id.len(),
        is_point(point),
        point.len() == 65,
        nonce.len() == 12,
        opened_payload(service, payload, shared) == Ok::<Seq<u8>, ErrorView>(dek),
        key_id.len() <= 65535 ==> wrapped_parts(wrapped) == Ok::<PayloadView, ErrorView>(payload),
{
    crate::crypto::wrapped_payload(
        service,
        provider_type,
        key_id,
        point,
        shared,
        nonce,
        dek,
    )
}

/// A wrapping on the wire, from its first byte to its last: version, provider, the name of the key
/// encryption key, the public key, the nonce, and the key sealed by AES-256-GCM under the key
/// derived for the service, with the protocol's own name authenticated beside it. It opens to the
/// key, and is read back from the wire where the name fits its field.
pub proof fn a_wrapping_is_made_of_its_inputs(
    wrapped: Seq<u8>,
    service: Seq<char>,
    provider_type: ProviderType,
    key_id: Seq<u8>,
    point: Seq<u8>,
    shared: Seq<u8>,
    nonce: Seq<u8>,
    dek: Seq<u8>,
) -> (payload: PayloadView)
    requires
        is_wrapping(wrapped, service, provider_type, key_id, point, shared, nonce, dek),
    ensures
        ({
            let parts = aes256_gcm_seal(
                hkdf_sha256(
                    shared,
                    encode_utf8("hkdfguard-wrap-v1:"@) + encode_utf8(service),
                    32,
                ),
                nonce,
                encode_utf8("hkdfguard-dek-v1"@),
                dek,
            );
            let n = key_id.len() as int;
            &&& wrapped.len() == 133 + n
            &&& wrapped[0] == 1
            &&& wrapped[1] == provider_type.tag()
            &&& wrapped[2] as int == n % 256
            &&& wrapped[3] as int == n / 256 % 256
            &&& wrapped.subrange(4, 4 + n) == key_id
            &&& wrapped.subrange(4 + n, 69 + n) == point
            &&& wrapped.subrange(69 + n, 81 + n) == nonce
            &&& wrapped.subrange(81 + n, 85 + n) == seq![48u8, 0, 0, 0]
            &&& wrapped.subrange(85 + n, 133 + n) == parts.0 + parts.1
            &&& payload.ciphertext == parts.0 + parts.1
        }),
        is_point(point),
        nonce.len() == 12,
        payload.provider_type == provider_type,
        payload.key_id == key_id,
        payload.ephemeral_public_key == point,
        payload.nonce == nonce,
        opened_payload(service, payload, shared) == Ok::<Seq<u8>, ErrorView>(dek),
        key_id.len() <= 65535 ==> wrapped_parts(wrapped) == Ok::<PayloadView, ErrorView>(payload),
{
    let payload = a_wrapping_has_a_payload(
        wrapped,
        service,
        provider_type,
        key_id,
        point,
        shared,
        nonce,
        dek,
    );
    the_wire_holds_the_payload(wrapped, payload);
    payload
}

/// A payload can hold a wrapped key exactly where it is one and its ciphertext has 48 bytes.
pub proof fn wrapped_keys_have_48_bytes(wrapped: Seq<u8>)
    ensures
        match PayloadView::parse(wrapped) {
            Ok(payload) => wrapped_parts(wrapped) == (if payload.ciphertext.len() == 48 {
                Ok::<PayloadView, ErrorView>(payload)
            } else {
                Err(ErrorView::Crypto("wrapped ciphertext has unexpected length"@))
            }),
            Err(error) => wrapped_parts(wrapped) == Err::<PayloadView, ErrorView>(error),
        },
{
}

/// A payload is opened by AES-256-GCM on its nonce, the first 32 and the last 16 bytes of its
/// ciphertext and the protocol's own name, under the key derived for the service; what does not
/// authenticate is a cryptographic error.
pub proof fn opening_uses_all_of_the_payload(
    service: Seq<char>,
    payload: PayloadView,
    shared: Seq<u8>,
)
    requires
        payload.ciphertext.len() == 48,
    ensures
        opened_payload(service, payload, shared) == (match aes256_gcm_open(
            hkdf_sha256(shared, encode_utf8("hkdfguard-wrap-v1:"@) + encode_utf8(service), 32),
            payload.nonce,
            encode_utf8("hkdfguard-dek-v1"@),
            payload.ciphertext.subrange(0, 32),
            payload.ciphertext.subrange(32, 48),
        ) {
            Some(dek) => Ok::<Seq<u8>, ErrorView>(dek),
            None => Err(
                ErrorView::Crypto(
                    "AES-256-GCM authentication failed (tampered, wrong service, or wrong KEK)"@,
                ),
            ),
        }),
{
}

/// Unwrapping reads the payload, agrees on a secret with the public key in it, and opens it; the
/// first of the three that fails gives the error.
pub proof fn unwrapping_reads_agrees_and_opens(
    service: Seq<char>,
    wrapped: Seq<u8>,
    agreed: spec_fn(Seq<u8>) -> Seq<u8>,
)
    ensures
        match wrapped_parts(wrapped) {
            Err(error) => unwrapped(service, wrapped, agreed) == Err::<Seq<u8>, ErrorView>(error),
            Ok(payload) => {
                let point = payload.ephemeral_public_key;
                &&& unwrapped(service, wrapped, agreed) == unwrapped_payload(
                    service,
                    payload,
                    agreed,
                )
                &&& unwrapped(service, wrapped, agreed) == (if is_point(point) {
                    opened_payload(service, payload, agreed(point))
                } else {
                    Err(ErrorView::Crypto("malformed ephemeral public key in wrapped payload"@))
                })
            },
        },
{
}

/// A payload with a ciphertext of another length is refused before anything else is looked at.
pub proof fn other_ciphertexts_are_refused(
    service: Seq<char>,
    payload: PayloadView,
    shared: Seq<u8>,
    agreed: spec_fn(Seq<u8>) -> Seq<u8>,
)
    requires
        payload.ciphertext.len() != 48,
    ensures
        opened_payload(service, payload, shared) == Err::<Seq<u8>, ErrorView>(
            ErrorView::Crypto("wrapped ciphertext has unexpected length"@),
        ),
        unwrapped_payload(service, payload, agreed) == Err::<Seq<u8>, ErrorView>(
            ErrorView::Crypto("wrapped ciphertext has unexpected length"@),
        ),
{
}

/// What a handle agrees on is what its key agrees on.
pub proof fn agreements_are_those_of_the_handle<H: KekHandle>(handle: &H, point: Seq<u8>)
    ensures
        agreement(handle)(point) == handle.agreed(point),
{
}

/// With a key of 16 bytes, sealing and opening are those of AES-128-GCM on the caller's own key,
/// nonce, associated data and text.
pub proof fn sixteen_byte_keys_are_aes_128(
    key: Seq<u8>,
    nonce: Seq<u8>,
    aad: Seq<u8>,
    text: Seq<u8>,
    tag: Seq<u8>,
)
    requires
        key.len() == 16,
    ensures
        sealed_parts(key, nonce, aad, text) == (if text.len() <= 0x10_0000_0000 && aad.len()
            <= 0x10_0000_0000 {
            Ok::<(Seq<u8>, Seq<u8>), ErrorView>(aes128_gcm_seal(key, nonce, aad, text))
        } else {
            Err(ErrorView::Crypto("AES-128-GCM encryption failed"@))
        }),
        opened_parts(key, nonce, aad, text, tag) == (match aes128_gcm_open(
            key,
            nonce,
            aad,
            text,
            tag,
        ) {
            Some(plaintext) => Ok::<Seq<u8>, ErrorView>(plaintext),
            None => Err(ErrorView::Crypto("AES-128-GCM authentication failed"@)),
        }),
{
}

/// With a key of 24 bytes, sealing and opening are those of AES-192-GCM on the caller's own key,
/// nonce, associated data and text.
pub proof fn twenty_four_byte_keys_are_aes_192(
    key: Seq<u8>,
    nonce: Seq<u8>,
    aad: Seq<u8>,
    text: Seq<u8>,
    tag: Seq<u8>,
)
    requires
        key.len() == 24,
    ensures
        sealed_parts(key, nonce, aad, text) == (if text.len() <= 0x10_0000_0000 && aad.len()
            <= 0x10_0000_0000 {
            Ok::<(Seq<u8>, Seq<u8>), ErrorView>(aes192_gcm_seal(key, nonce, aad, text))
        } else {
            Err(ErrorView::Crypto("AES-192-GCM encryption failed"@))
        }),
        opened_parts(key, nonce, aad, text, tag) == (match aes192_gcm_open(
            key,
            nonce,
            aad,
            text,
            tag,
        ) {
            Some(plaintext) => Ok::<Seq<u8>, ErrorView>(plaintext),
            None => Err(ErrorView::Crypto("AES-192-GCM authentication failed"@)),
        }),
{
}

/// With a key of 32 bytes, sealing and opening are those of AES-256-GCM on the caller's own key,
/// nonce, associated data and text.
pub proof fn thirty_two_byte_keys_are_aes_256(
    key: Seq<u8>,
    nonce: Seq<u8>,
    aad: Seq<u8>,
    text: Seq<u8>,
    tag: Seq<u8>,
)
    requires
        key.len() == 32,
    ensures
        sealed_parts(key, nonce, aad, text) == (if text.len() <= 0x10_0000_0000 && aad.len()
            <= 0x10_0000_0000 {
            Ok::<(Seq<u8>, Seq<u8>), ErrorView>(aes256_gcm_seal(key, nonce, aad, text))
        } else {
            Err(ErrorView::Crypto("AES-256-GCM encryption failed"@))
        }),
        opened_parts(key, nonce, aad, text, tag) == (match aes256_gcm_open(
            key,
            nonce,
            aad,
            text,
            tag,
        ) {
            Some(plaintext) => Ok::<Seq<u8>, ErrorView>(plaintext),
            None => Err(ErrorView::Crypto("AES-256-GCM authentication failed"@)),
        }),
{
}

/// A key of any other length seals and opens nothing.
pub proof fn other_keys_are_refused(
    key: Seq<u8>,
    nonce: Seq<u8>,
    aad: Seq<u8>,
    text: Seq<u8>,
    tag: Seq<u8>,
)
    requires
        key.len() != 16 && key.len() != 24 && key.len() != 32,
    ensures
        sealed_parts(key, nonce, aad, text) == Err::<(Seq<u8>, Seq<u8>), ErrorView>(
            ErrorView::Crypto("key length must be 16, 24, or 32 bytes"@),
        ),
        opened_parts(key, nonce, aad, text, tag) == Err::<Seq<u8>, ErrorView>(
            ErrorView::Crypto("key length must be 16, 24, or 32 bytes"@),
        ),
{
}

/// A payload is the nonce, the ciphertext and the tag, one after the other, and is taken apart
/// again at the twelfth byte from its start and the sixteenth from its end; the same associated
/// data goes into both. What is shorter than 28 bytes is none.
pub proof fn payloads_are_nonce_ciphertext_and_tag(
    key: Seq<u8>,
    nonce: Seq<u8>,
    aad: Seq<u8>,
    text: Seq<u8>,
    payload: Seq<u8>,
)
    ensures
        match sealed_parts(key, nonce, aad, text) {
            Ok(parts) => sealed(key, nonce, text, aad) == Ok::<Seq<u8>, ErrorView>(
                nonce + parts.0 + parts.1,
            ),
            Err(error) => sealed(key, nonce, text, aad) == Err::<Seq<u8>, ErrorView>(error),
        },
        payload.len() >= 28 ==> opened(key, payload, aad) == opened_parts(
            key,
            payload.subrange(0, 12),
            aad,
            payload.subrange(12, payload.len() - 16),
            payload.subrange(payload.len() - 16, payload.len() as int),
        ),
        payload.len() < 28 ==> opened(key, payload, aad) == Err::<Seq<u8>, ErrorView>(
            ErrorView::Crypto("payload shorter than the fixed nonce+tag overhead"@),
        ),
{
}

/// A wrapping goes on under the provider and the name that the selection gave, for the service that
/// was asked for, or ends with the selection's own error.
pub proof fn wrappings_follow_the_selection(
    service: Seq<char>,
    provider_type: ProviderType,
    key_id: Seq<u8>,
    point: Seq<u8>,
    nonce: Seq<u8>,
    error: ErrorView,
    shared: Seq<u8>,
    dek: Seq<u8>,
    wrapped: Seq<u8>,
)
    ensures
        after_select(service, Ok((provider_type, key_id)), point, nonce) == WrapView::Agree(
            (Agreement { service, provider_type, key_id, point, nonce }),
        ),
        after_select(service, Err(error), point, nonce) == WrapView::Done(Err(error)),
        (Agreement { service, provider_type, key_id, point, nonce }).wraps(shared, dek, wrapped)
            <==> is_wrapping(
            wrapped,
            service,
            provider_type,
            key_id,
            point,
            shared,
            nonce,
            dek,
        ),
{
}

/// What a selection gave is seen whole.
pub proof fn selections_are_seen_whole(
    answer: Result<(ProviderType, Vec<u8>), crate::error::Error>,
)
    ensures
        match answer {
            Ok(pair) => selected_view(answer) == Ok::<(ProviderType, Seq<u8>), ErrorView>(
                (pair.0, pair.1@),
            ),
            Err(error) => selected_view(answer) == Err::<(ProviderType, Seq<u8>), ErrorView>(
                error@,
            ),
        },
{
}

/// An unwrapping goes from the payload to its provider, to the agreement, to the end; every error
/// on the way is handed on as it is, but for a provider without a key for a service that the
/// payload was not wrapped for.
pub proof fn unwrappings_go_step_by_step(
    service: Seq<char>,
    wrapped: Seq<u8>,
    payload: PayloadView,
    error: ErrorView,
    shared: Seq<u8>,
)
    ensures
        match wrapped_parts(wrapped) {
            Ok(read) => first_unwrap(service, wrapped) == UnwrapView::Ask(service, read),
            Err(refusal) => first_unwrap(service, wrapped) == UnwrapView::Done(Err(refusal)),
        },
        is_point(payload.ephemeral_public_key) ==> after_provider(service, payload, Ok(()))
            == UnwrapView::Agree(service, payload),
        !is_point(payload.ephemeral_public_key) ==> after_provider(service, payload, Ok(()))
            == UnwrapView::Done(
            Err(ErrorView::Crypto("malformed ephemeral public key in wrapped payload"@)),
        ),
        error !is KeyNotProvisioned || payload.key_id == encode_utf8("external:"@ + service)
            ==> after_provider(service, payload, Err(error)) == UnwrapView::Done(Err(error)),
        error is KeyNotProvisioned && payload.key_id != encode_utf8("external:"@ + service)
            ==> after_provider(service, payload, Err(error)) == UnwrapView::Done(
            Err(
                ErrorView::Crypto(
                    "AES-256-GCM authentication failed (tampered, wrong service, or wrong KEK)"@,
                ),
            ),
        ),
        after_agreement(service, payload, Ok(shared)) == UnwrapView::Done(
            opened_payload(service, payload, shared),
        ),
        after_agreement(service, payload, Err(error)) == UnwrapView::Done(Err(error)),
        delivered(Err(error)) == Err::<Seq<u8>, i32>(error.code()),
        delivered(Ok(shared)) == Ok::<Seq<u8>, i32>(shared),
{
}

} // verus!
