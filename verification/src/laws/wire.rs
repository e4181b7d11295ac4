//! The wire format, byte by byte.
use crate::error::{Error, ErrorView};
use crate::payload::{
    payload_bytes_are_canonical, payload_round_trips, Payload, PayloadView,
};
use crate::provider::ProviderType;
use vstd::prelude::*;

verus! {

/// The byte and the name of each provider.
pub proof fn providers_have_their_bytes_and_names()
    ensures
        ProviderType::Tpm2.tag() == 1 && ProviderType::Tpm2.name() == "TPM2"@,
        ProviderType::Pkcs11.tag() == 2 && ProviderType::Pkcs11.name() == "PKCS11"@,
        ProviderType::ExternalSecret.tag() == 3 && ProviderType::ExternalSecret.name()
            == "EXTERNAL_SECRET"@,
        ProviderType::Software.tag() == 4 && ProviderType::Software.name() == "SOFTWARE"@,
        ProviderType::Ephemeral.tag() == 5 && ProviderType::Ephemeral.name() == "EPHEMERAL"@,
{
}

/// A payload is seen with all of its fields, whole.
pub proof fn payloads_are_seen_whole(payload: Payload)
    ensures
        payload@.provider_type == payload.provider_type,
        payload@.key_id == payload.key_id@,
        payload@.ephemeral_public_key == payload.ephemeral_public_key@,
        payload@.nonce == payload.nonce@,
        payload@.ciphertext == payload.ciphertext@,
{
}

/// Where each field of a payload lies on the wire. The two lengths are little-endian, in two and in
/// four bytes, and each is the length of the field behind it.
pub proof fn fields_lie_at_their_offsets(payload: PayloadView)
    requires
        payload.ephemeral_public_key.len() == 65,
        payload.nonce.len() == 12,
    ensures
        ({
            let buf = payload.serialize();
            let n = payload.key_id.len() as int;
            let m = payload.ciphertext.len() as int;
            &&& buf.len() == 85 + n + m
            &&& buf[0] == 1
            &&& buf[1] == payload.provider_type.tag()
            &&& buf[2] as int == n % 256
            &&& buf[3] as int == n / 256 % 256
            &&& buf.subrange(4, 4 + n) == payload.key_id
            &&& buf.subrange(4 + n, 69 + n) == payload.ephemeral_public_key
            &&& buf.subrange(69 + n, 81 + n) == payload.nonce
            &&& buf[81 + n] as int == m % 256
            &&& buf[82 + n] as int == m / 256 % 256
            &&& buf[83 + n] as int == m / 65536 % 256
            &&& buf[84 + n] as int == m / 16777216 % 256
            &&& buf.subrange(85 + n, 85 + n + m) == payload.ciphertext
        }),
{
    let buf = payload.serialize();
    let n = payload.key_id.len() as int;
    let m = payload.ciphertext.len() as int;
    assert(buf.subrange(4, 4 + n) =~= payload.key_id);
    assert(buf.subrange(4 + n, 69 + n) =~= payload.ephemeral_public_key);
    assert(buf.subrange(69 + n, 81 + n) =~= payload.nonce);
    assert(buf.subrange(85 + n, 85 + n + m) =~= payload.ciphertext);
}

/// Bytes are a payload exactly where the version is one, the provider's byte is one of five, and
/// the two lengths that they announce account for every byte. What is then read lies at its
/// offset.
pub proof fn payloads_are_read_from_their_offsets(buf: Seq<u8>)
    requires
        buf.len() <= usize::MAX,
    ensures
        ({
            let n = buf[2] + 256 * buf[3];
            let m = buf[81 + n] + 256 * buf[82 + n] + 65536 * buf[83 + n] + 16777216 * buf[84 + n];
            &&& PayloadView::parse(buf) is Ok <==> {
                &&& buf.len() >= 85
                &&& buf[0] == 1
                &&& 1 <= buf[1] <= 5
                &&& buf.len() >= 85 + n
                &&& buf.len() == 85 + n + m
            }
            &&& PayloadView::parse(buf) matches Ok(payload) ==> {
                &&& payload.provider_type.tag() == buf[1]
                &&& payload.key_id == buf.subrange(4, 4 + n)
                &&& payload.ephemeral_public_key == buf.subrange(4 + n, 69 + n)
                &&& payload.nonce == buf.subrange(69 + n, 81 + n)
                &&& payload.ciphertext == buf.subrange(85 + n, 85 + n + m)
            }
        }),
{
    crate::provider::provider_tags_round_trip(ProviderType::Tpm2, buf[1]);
}

/// Each malformation is refused with its own message, the first of them where there are several.
pub proof fn malformed_payloads_have_their_messages(buf: Seq<u8>)
    requires
        buf.len() <= usize::MAX,
        PayloadView::parse(buf) is Err,
    ensures
        ({
            let n = buf[2] + 256 * buf[3];
            let m = buf[81 + n] + 256 * buf[82 + n] + 65536 * buf[83 + n] + 16777216 * buf[84 + n];
            let message = PayloadView::parse(buf)->Err_0->Crypto_0;
            &&& PayloadView::parse(buf)->Err_0 is Crypto
            &&& buf.len() >= 1 && buf[0] != 1 ==> message == "unsupported wrapped payload version"@
            &&& buf.len() >= 2 && buf[0] == 1 && !(1 <= buf[1] <= 5) ==> message
                == "unknown provider type in wrapped payload"@
            &&& buf.len() == 0 ==> message == "wrapped payload is truncated"@
            &&& buf.len() == 1 && buf[0] == 1 ==> message == "wrapped payload is truncated"@
            &&& buf.len() >= 2 && buf[0] == 1 && 1 <= buf[1] <= 5 ==> {
                &&& buf.len() < 4 || buf.len() < 85 + n ==> message
                    == "wrapped payload is truncated"@
                &&& buf.len() >= 85 + n && buf.len() >= 4 && 85 + n + m > usize::MAX ==> message
                    == "wrapped payload field length overflow"@
                &&& buf.len() >= 85 + n && buf.len() >= 4 && buf.len() < 85 + n + m <= usize::MAX
                    ==> message == "wrapped payload is truncated"@
                &&& buf.len() >= 85 && buf.len() > 85 + n + m ==> message
                    == "trailing bytes after wrapped payload"@
            }
        }),
{
    crate::provider::provider_tags_round_trip(ProviderType::Tpm2, buf[1]);
}

/// Writing and reading undo each other, whichever comes first.
pub proof fn writing_and_reading_undo_each_other(payload: PayloadView, buf: Seq<u8>)
    requires
        payload.ephemeral_public_key.len() == 65,
        payload.nonce.len() == 12,
        payload.key_id.len() <= 65535,
        payload.ciphertext.len() <= 4294967295,
        85 + payload.key_id.len() + payload.ciphertext.len() <= usize::MAX,
    ensures
        PayloadView::parse(payload.serialize()) == Ok::<PayloadView, ErrorView>(payload),
        PayloadView::parse(buf) matches Ok(read) ==> read.serialize() == buf,
{
    fields_lie_at_their_offsets(payload);
    payload_round_trips(payload);
    if PayloadView::parse(buf) is Ok {
        payload_bytes_are_canonical(buf);
    }
}

/// An error is seen with its kind and its whole text.
pub proof fn errors_are_seen_whole(error: Error)
    ensures
        match error {
            Error::NoProviderAvailable => error@ == ErrorView::NoProviderAvailable,
            Error::Provider(text) => error@ == ErrorView::Provider(text@),
            Error::KeyNotProvisioned(text) => error@ == ErrorView::KeyNotProvisioned(text@),
            Error::Crypto(text) => error@ == ErrorView::Crypto(text@),
        },
{
}

/// The status code and the message of each kind of error; the message ends with the whole text.
pub proof fn errors_have_their_codes_and_messages(text: Seq<char>)
    ensures
        ErrorView::NoProviderAvailable.code() == -3,
        ErrorView::Provider(text).code() == -4,
        ErrorView::KeyNotProvisioned(text).code() == -4,
        ErrorView::Crypto(text).code() == -5,
        ErrorView::NoProviderAvailable.message() == "no KEK provider is available"@,
        ErrorView::Provider(text).message() == "provider error: "@ + text,
        ErrorView::KeyNotProvisioned(text).message() == "no key provisioned: "@ + text,
        ErrorView::Crypto(text).message() == "cryptographic error: "@ + text,
{
}

} // verus!
