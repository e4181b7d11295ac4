//! The identity of the key to wrap under, the key to wrap, and what a status code means.
use crate::bytes::{array_from, bytes_or_reason};
use crate::crypto::DEK_LEN;
use crate::primitives::memory::scrub;
use crate::status;
use crate::text::{
    concat2, concat3, decimal, decimal_text, decimals_spell_their_number, is_digit, signed_decimal,
    signed_decimal_text,
};
use base64::engine::general_purpose::STANDARD;
use base64::Engine;
use vstd::prelude::*;

verus! {

/// The service under which a material identifier's key is kept.
pub open spec fn combined_service(name: Seq<char>, material_identifier: u32) -> Seq<char> {
    name + "."@ + decimal(material_identifier as nat)
}

/// Combines a service name and a material identifier.
pub fn combine_service(name: &str, material_identifier: u32) -> (service: String)
    ensures
        service@ == combined_service(name@, material_identifier),
{
    concat3(name, ".", decimal_text(material_identifier as u64).as_str())
}

/// Whether a character may occur in a combined service name: an ASCII letter or digit, or a dot.
pub open spec fn is_service_char(c: char) -> bool {
    'a' <= c <= 'z' || 'A' <= c <= 'Z' || '0' <= c <= '9' || c == '.'
}

/// Whether a combined service name holds admissible characters only.
pub open spec fn is_service_name(service: Seq<char>) -> bool {
    forall|i: int| 0 <= i < service.len() ==> is_service_char(#[trigger] service[i])
}

/// The message that refuses a combined service name.
pub open spec fn charset_message(service: Seq<char>) -> Seq<char> {
    "combined service name \""@ + service
        + "\" must contain only alphanumeric characters or '.'"@
}

/// Checks the characters of a combined service name.
pub fn validate_service_charset(service: &str) -> (r: Result<(), String>)
    ensures
        match r {
            Ok(_) => is_service_name(service@),
            Err(message) => !is_service_name(service@) && message@ == charset_message(service@),
        },
{
    let n: usize = service.unicode_len();
    let mut i: usize = 0;
    while i < n
        invariant
            i <= n == service@.len(),
            forall|j: int| 0 <= j < i ==> is_service_char(#[trigger] service@[j]),
        decreases n - i,
    {
        let c = service.get_char(i);
        let letter = ('a' <= c && c <= 'z') || ('A' <= c && c <= 'Z');
        if !(letter || ('0' <= c && c <= '9') || c == '.') {
            assert(!is_service_char(service@[i as int]));
            return Err(
                concat3(
                    "combined service name \"",
                    service,
                    "\" must contain only alphanumeric characters or '.'",
                ),
            );
        }
        i += 1;
    }
    Ok(())
}

/// The bytes that a base64 text stands for, or why it stands for none.
pub uninterp spec fn base64_decoded(text: Seq<char>) -> Result<Seq<u8>, Seq<char>>;

/// `base64::Engine::decode` with `base64::engine::general_purpose::STANDARD`: bytes and error
/// text are a function of the text.
#[verifier::external_body]
pub(crate) fn base64_decode(text: &str) -> (r: Result<Vec<u8>, String>)
    ensures
        bytes_or_reason(r) == base64_decoded(text@),
{
    STANDARD.decode(text).map_err(|e| format!("{e}"))
}

/// A key or a message, as sequences.
pub open spec fn key_or_message(r: Result<[u8; DEK_LEN], String>) -> Result<Seq<u8>, Seq<char>> {
    match r {
        Ok(key) => Ok(key@),
        Err(message) => Err(message@),
    }
}

/// The key that decoded bytes are, or why they are none.
pub open spec fn checked_dek(decoded: Result<Seq<u8>, Seq<char>>) -> Result<Seq<u8>, Seq<char>> {
    match decoded {
        Err(reason) => Err("--dek is not valid base64: "@ + reason),
        Ok(bytes) => if bytes.len() != DEK_LEN {
            Err("--dek must decode to exactly 32 bytes, got "@ + decimal(bytes.len()))
        } else {
            Ok(bytes)
        },
    }
}

/// Checks that decoded bytes are a key. The bytes are scrubbed.
pub fn check_dek(decoded: Result<Vec<u8>, String>) -> (r: Result<[u8; DEK_LEN], String>)
    ensures
        key_or_message(r) == checked_dek(bytes_or_reason(decoded)),
{
    let mut bytes = match decoded {
        Ok(bytes) => bytes,
        Err(reason) => return Err(concat2("--dek is not valid base64: ", reason.as_str())),
    };
    let n: usize = bytes.len();
    if n != DEK_LEN {
        scrub(bytes.as_mut_slice());
        let digits = decimal_text(n as u64);
        return Err(concat2("--dek must decode to exactly 32 bytes, got ", digits.as_str()));
    }
    let dek: [u8; DEK_LEN] = array_from(bytes.as_slice());
    scrub(bytes.as_mut_slice());
    Ok(dek)
}

/// What a status code means.
pub open spec fn status_description(code: i32) -> Seq<char> {
    if code == status::INVALID_ARGUMENT {
        "invalid argument (bad service name or DEK length)"@
    } else if code == status::PROVIDER_UNAVAILABLE {
        "no KEK provider is available on this host"@
    } else if code == status::PROVIDER_ERROR {
        "the selected KEK provider failed"@
    } else if code == status::CRYPTO_ERROR {
        "a cryptographic operation failed"@
    } else if code == status::INTERNAL_ERROR {
        "an internal error occurred in the hkdfguard library"@
    } else if code == status::INVALID_UTF8 {
        "the service name is not valid UTF-8"@
    } else {
        "unknown status code "@ + signed_decimal(code as int)
    }
}

/// Describes a status code.
pub fn describe_status(code: i32) -> (text: String)
    ensures
        text@ == status_description(code),
{
    if code == status::INVALID_ARGUMENT {
        String::from_str("invalid argument (bad service name or DEK length)")
    } else if code == status::PROVIDER_UNAVAILABLE {
        String::from_str("no KEK provider is available on this host")
    } else if code == status::PROVIDER_ERROR {
        String::from_str("the selected KEK provider failed")
    } else if code == status::CRYPTO_ERROR {
        String::from_str("a cryptographic operation failed")
    } else if code == status::INTERNAL_ERROR {
        String::from_str("an internal error occurred in the hkdfguard library")
    } else if code == status::INVALID_UTF8 {
        String::from_str("the service name is not valid UTF-8")
    } else {
        let digits = signed_decimal_text(code);
        concat2("unknown status code ", digits.as_str())
    }
}

/// The material identifiers of a service, and the services themselves, never share a key:
/// different pairs are combined into different names.
pub proof fn combined_services_are_distinct(
    a: Seq<char>,
    a_identifier: u32,
    b: Seq<char>,
    b_identifier: u32,
)
    requires
        combined_service(a, a_identifier) == combined_service(b, b_identifier),
    ensures
        a == b,
        a_identifier == b_identifier,
{
    reveal_strlit(".");
    let x = decimal(a_identifier as nat);
    let y = decimal(b_identifier as nat);
    decimals_spell_their_number(a_identifier as nat);
    decimals_spell_their_number(b_identifier as nat);
    let s = combined_service(a, a_identifier);
    assert(s.len() == a.len() + 1 + x.len());
    assert(combined_service(b, b_identifier).len() == b.len() + 1 + y.len());
    assert(s[a.len() as int] == '.');
    assert(combined_service(b, b_identifier)[b.len() as int] == '.');
    if a.len() < b.len() {
        let k = b.len() - a.len() - 1;
        assert(s[b.len() as int] == x[k]);
        assert(is_digit(x[k]));
    }
    if b.len() < a.len() {
        let k = a.len() - b.len() - 1;
        assert(combined_service(b, b_identifier)[a.len() as int] == y[k]);
        assert(is_digit(y[k]));
    }
    assert(s.take(a.len() as int) =~= a);
    assert(combined_service(b, b_identifier).take(b.len() as int) =~= b);
    assert(s.skip((a.len() + 1) as int) =~= x);
    assert(combined_service(b, b_identifier).skip((b.len() + 1) as int) =~= y);
}

/// The material identifier never makes a combined name inadmissible: only the service name can.
pub proof fn identifiers_are_admissible(name: Seq<char>, material_identifier: u32)
    ensures
        is_service_name(combined_service(name, material_identifier)) <==> is_service_name(name),
{
    reveal_strlit(".");
    let digits = decimal(material_identifier as nat);
    let service = combined_service(name, material_identifier);
    decimals_spell_their_number(material_identifier as nat);
    if is_service_name(name) {
        assert forall|i: int| 0 <= i < service.len() implies is_service_char(
            #[trigger] service[i],
        ) by {
            if i < name.len() {
                assert(service[i] == name[i]);
            } else if i > name.len() {
                assert(service[i] == digits[i - name.len() - 1]);
                assert(is_digit(digits[i - name.len() - 1]));
            }
        }
    }
    if is_service_name(service) {
        assert forall|i: int| 0 <= i < name.len() implies is_service_char(#[trigger] name[i]) by {
            assert(service[i] == name[i]);
        }
    }
}

/// A combined name that passes the check holds no NUL byte, so it can be handed on as a C string.
pub proof fn valid_services_have_no_nul(service: Seq<char>)
    requires
        is_service_name(service),
    ensures
        !service.contains('\0'),
{
}

} // verus!
