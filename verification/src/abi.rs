//! The rules of the C interface: which arguments are refused, and what is handed back where.
//!
//! The caller of this module reads the arguments out of memory and writes the reply there; both
//! functions of the interface are a check of the arguments, the operation itself, and the
//! delivery of its result.
use crate::bytes::overwrite;
use crate::crypto::{DEK_LEN, WRAPPING_OVERHEAD};
use crate::error::{outcome, Error, ErrorView};
use crate::primitives::memory::{scrub, zeros};
use crate::provider::ephemeral::ephemeral_id;
use crate::provider::external_secret::external_id;
use crate::provider::pkcs11::label;
use crate::status;
use crate::text::{utf8_of_concat, utf8_text};
use vstd::prelude::*;
use vstd::utf8::{
    decode_utf8, decode_utf8_encode_utf8, encode_utf8_decode_utf8, is_ascii_chars_encode_utf8,
    valid_utf8,
};

verus! {

/// The most bytes of a service name.
pub const MAX_SERVICE_LEN: usize = 255;

/// The service that an argument names, or the status code of its refusal.
pub open spec fn named_service(argument: Option<Seq<u8>>) -> Result<Seq<char>, i32> {
    match argument {
        None => Err(status::INVALID_ARGUMENT),
        Some(bytes) => if !valid_utf8(bytes) {
            Err(status::INVALID_UTF8)
        } else if bytes.len() == 0 {
            Err(status::MISSING_SERVICE_NAME)
        } else if bytes.len() > MAX_SERVICE_LEN {
            Err(status::INVALID_ARGUMENT)
        } else {
            Ok(decode_utf8(bytes))
        },
    }
}

/// The bytes of an optional slice.
pub open spec fn bytes_view(argument: Option<&[u8]>) -> Option<Seq<u8>> {
    match argument {
        Some(bytes) => Some(bytes@),
        None => None,
    }
}

/// A service name that was accepted, or a status code.
pub open spec fn service_view(r: Result<&str, i32>) -> Result<Seq<char>, i32> {
    match r {
        Ok(service) => Ok(service@),
        Err(code) => Err(code),
    }
}

/// Checks the service argument: the bytes before its terminator, or nothing for a null pointer.
pub fn cstr_to_service<'a>(argument: Option<&'a [u8]>) -> (r: Result<&'a str, i32>)
    ensures
        service_view(r) == named_service(bytes_view(argument)),
{
    let bytes = match argument {
        Some(bytes) => bytes,
        None => return Err(status::INVALID_ARGUMENT),
    };
    let service = match utf8_text(bytes) {
        Some(service) => service,
        None => return Err(status::INVALID_UTF8),
    };
    if bytes.len() == 0 {
        return Err(status::MISSING_SERVICE_NAME);
    }
    if bytes.len() > MAX_SERVICE_LEN {
        return Err(status::INVALID_ARGUMENT);
    }
    proof {
        encode_utf8_decode_utf8(service@);
    }
    Ok(service)
}

/// The service of a request to wrap, or the status code of its refusal. `capacity` is what the
/// length pointer points at, if it is not null.
pub open spec fn wrap_request_service(
    service: Option<Seq<u8>>,
    dek_present: bool,
    dek_len: i32,
    capacity: Option<i32>,
) -> Result<Seq<char>, i32> {
    if !dek_present || capacity is None || dek_len != DEK_LEN || capacity->0 < 0 {
        Err(status::INVALID_ARGUMENT)
    } else {
        named_service(service)
    }
}

/// Checks the arguments of a request to wrap.
pub fn check_wrap_request<'a>(
    service: Option<&'a [u8]>,
    dek_present: bool,
    dek_len: i32,
    capacity: Option<i32>,
) -> (r: Result<&'a str, i32>)
    ensures
        service_view(r) == wrap_request_service(
            bytes_view(service),
            dek_present,
            dek_len,
            capacity,
        ),
{
    if !dek_present {
        return Err(status::INVALID_ARGUMENT);
    }
    match capacity {
        None => Err(status::INVALID_ARGUMENT),
        Some(capacity) => if dek_len != DEK_LEN as i32 || capacity < 0 {
            Err(status::INVALID_ARGUMENT)
        } else {
            cstr_to_service(service)
        },
    }
}

/// The service of a request to unwrap, or the status code of its refusal. `capacity` is what the
/// length pointer points at, if it is not null.
pub open spec fn unwrap_request_service(
    service: Option<Seq<u8>>,
    wrapped_present: bool,
    wrapped_len: i32,
    capacity: Option<i32>,
) -> Result<Seq<char>, i32> {
    if !wrapped_present || capacity is None || wrapped_len < 0 || capacity->0 < 0 {
        Err(status::INVALID_ARGUMENT)
    } else {
        named_service(service)
    }
}

/// Checks the arguments of a request to unwrap.
pub fn check_unwrap_request<'a>(
    service: Option<&'a [u8]>,
    wrapped_present: bool,
    wrapped_len: i32,
    capacity: Option<i32>,
) -> (r: Result<&'a str, i32>)
    ensures
        service_view(r) == unwrap_request_service(
            bytes_view(service),
            wrapped_present,
            wrapped_len,
            capacity,
        ),
{
    if !wrapped_present {
        return Err(status::INVALID_ARGUMENT);
    }
    match capacity {
        None => Err(status::INVALID_ARGUMENT),
        Some(capacity) => if wrapped_len < 0 || capacity < 0 {
            Err(status::INVALID_ARGUMENT)
        } else {
            cstr_to_service(service)
        },
    }
}

/// A reply: the status code, the caller's buffer and the length that is reported.
pub struct Reply {
    pub code: i32,
    pub out: Seq<u8>,
    pub out_len: i32,
}

/// `out` with its first bytes replaced.
pub open spec fn with_front(out: Seq<u8>, front: Seq<u8>) -> Seq<u8> {
    front + out.skip(front.len() as int)
}

/// The reply to a request to wrap. `present` says whether there is a buffer.
pub open spec fn wrap_reply(
    result: Result<Seq<u8>, ErrorView>,
    out: Seq<u8>,
    present: bool,
    capacity: i32,
) -> Reply {
    match result {
        Err(error) => Reply { code: error.code(), out, out_len: capacity },
        Ok(wrapped) => if capacity < wrapped.len() {
            Reply { code: status::BUFFER_TOO_SMALL, out, out_len: wrapped.len() as i32 }
        } else if !present {
            Reply { code: status::INVALID_ARGUMENT, out, out_len: capacity }
        } else {
            Reply {
                code: status::OK,
                out: with_front(out, wrapped),
                out_len: wrapped.len() as i32,
            }
        },
    }
}

/// Delivers the result of wrapping into the caller's buffer of `*out_len` bytes. `present` says
/// whether there is a buffer; without one `out` is empty.
///
/// A buffer that is too small is left alone, and the length that is needed is reported.
pub fn deliver_wrapped(
    result: Result<Vec<u8>, Error>,
    out: &mut [u8],
    present: bool,
    out_len: &mut i32,
) -> (code: i32)
    requires
        *old(out_len) >= 0,
        present ==> old(out)@.len() == *old(out_len),
        result matches Ok(wrapped) ==> wrapped@.len() <= i32::MAX,
    ensures
        (Reply { code, out: final(out)@, out_len: *final(out_len) }) == wrap_reply(
            outcome(result),
            old(out)@,
            present,
            *old(out_len),
        ),
{
    let wrapped = match result {
        Ok(wrapped) => wrapped,
        Err(error) => return error.status_code(),
    };
    let needed: i32 = wrapped.len() as i32;
    if *out_len < needed {
        *out_len = needed;
        return status::BUFFER_TOO_SMALL;
    }
    if !present {
        return status::INVALID_ARGUMENT;
    }
    overwrite(out, wrapped.as_slice());
    *out_len = needed;
    status::OK
}

/// The reply to a request to unwrap. `present` says whether there is a buffer.
pub open spec fn unwrap_reply(
    result: Result<Seq<u8>, i32>,
    out: Seq<u8>,
    present: bool,
    capacity: i32,
) -> Reply {
    match result {
        Err(code) => Reply { code, out: zeros(out.len()), out_len: capacity },
        Ok(dek) => if capacity < DEK_LEN {
            Reply {
                code: status::BUFFER_TOO_SMALL,
                out: zeros(out.len()),
                out_len: DEK_LEN as i32,
            }
        } else if !present {
            Reply { code: status::INVALID_ARGUMENT, out, out_len: capacity }
        } else {
            Reply { code: status::OK, out: with_front(out, dek), out_len: DEK_LEN as i32 }
        },
    }
}

/// A result with the key's bytes as a sequence.
pub open spec fn dek_view(result: Result<[u8; DEK_LEN], i32>) -> Result<Seq<u8>, i32> {
    match result {
        Ok(dek) => Ok(dek@),
        Err(code) => Err(code),
    }
}

/// Delivers the result of unwrapping, or the status code of a failure at any earlier point, into
/// the caller's buffer of `*out_len` bytes. `present` says whether there is a buffer; without one,
/// or with a capacity that is not positive, `out` is empty.
///
/// Whatever the failure, every byte of the buffer is zero afterwards.
pub fn deliver_unwrapped(
    result: Result<[u8; DEK_LEN], i32>,
    out: &mut [u8],
    present: bool,
    out_len: &mut i32,
) -> (code: i32)
    requires
        old(out)@.len() == if present && *old(out_len) > 0 {
            *old(out_len) as int
        } else {
            0
        },
        result matches Err(code) ==> code != status::OK,
    ensures
        (Reply { code, out: final(out)@, out_len: *final(out_len) }) == unwrap_reply(
            dek_view(result),
            old(out)@,
            present,
            *old(out_len),
        ),
        code != status::OK ==> final(out)@ == zeros(old(out)@.len()),
{
    let mut dek = match result {
        Ok(dek) => dek,
        Err(code) => {
            scrub(out);
            return code;
        },
    };
    if *out_len < DEK_LEN as i32 {
        scrub(&mut dek);
        scrub(out);
        *out_len = DEK_LEN as i32;
        return status::BUFFER_TOO_SMALL;
    }
    if !present {
        scrub(&mut dek);
        assert(out@ =~= zeros(0));
        return status::INVALID_ARGUMENT;
    }
    overwrite(out, &dek);
    *out_len = DEK_LEN as i32;
    scrub(&mut dek);
    status::OK
}

/// A buffer that holds the payload of every service that the interface accepts.
pub const SAFE_CAPACITY: usize = 512;

/// Whichever provider wraps the key of a service that the interface accepts, the payload fits 512
/// bytes, and the name of the key encryption key fits its field: it is a digest of 32 bytes, one
/// of 64 hexadecimal digits, or made of the service's own name.
pub proof fn accepted_services_have_short_payloads(bytes: Seq<u8>)
    requires
        named_service(Some(bytes)) is Ok,
    ensures
        ({
            let service = named_service(Some(bytes))->Ok_0;
            &&& WRAPPING_OVERHEAD + ephemeral_id(service).len() <= SAFE_CAPACITY
            &&& WRAPPING_OVERHEAD + external_id(service).len() <= SAFE_CAPACITY
            &&& WRAPPING_OVERHEAD + label(service).len() <= SAFE_CAPACITY
            &&& WRAPPING_OVERHEAD + 64 <= SAFE_CAPACITY < 0x1_0000
        }),
{
    let service = decode_utf8(bytes);
    decode_utf8_encode_utf8(bytes);
    utf8_of_concat("ephemeral:"@, service);
    utf8_of_concat("external:"@, service);
    utf8_of_concat("hkdfguard:"@, service);
    reveal_strlit("ephemeral:");
    reveal_strlit("external:");
    reveal_strlit("hkdfguard:");
    is_ascii_chars_encode_utf8("ephemeral:"@);
    is_ascii_chars_encode_utf8("external:"@);
    is_ascii_chars_encode_utf8("hkdfguard:"@);
}

/// A failed request to unwrap leaves nothing but zeros in the caller's buffer, and a failed
/// request to wrap leaves the buffer as it was.
pub proof fn failures_reveal_nothing(
    unwrapped: Result<Seq<u8>, i32>,
    wrapped: Result<Seq<u8>, ErrorView>,
    out: Seq<u8>,
    present: bool,
    capacity: i32,
)
    requires
        out.len() == if present && capacity > 0 {
            capacity as int
        } else {
            0
        },
        unwrapped matches Err(code) ==> code != status::OK,
    ensures
        unwrap_reply(unwrapped, out, present, capacity).code != status::OK ==> unwrap_reply(
            unwrapped,
            out,
            present,
            capacity,
        ).out == zeros(out.len()),
        wrap_reply(wrapped, out, present, capacity).code != status::OK ==> wrap_reply(
            wrapped,
            out,
            present,
            capacity,
        ).out == out,
{
    assert(!present ==> out =~= zeros(0));
}

/// A result that fits the caller's buffer is delivered whole at its front, with its length, and
/// the rest of the buffer is left as it was.
pub proof fn results_are_delivered_whole(
    wrapped: Seq<u8>,
    dek: Seq<u8>,
    out: Seq<u8>,
    capacity: i32,
)
    requires
        out.len() == capacity,
        dek.len() == DEK_LEN,
    ensures
        wrapped.len() <= capacity ==> {
            let reply = wrap_reply(Ok(wrapped), out, true, capacity);
            &&& reply.code == status::OK
            &&& reply.out_len == wrapped.len()
            &&& reply.out.len() == out.len()
            &&& reply.out.take(wrapped.len() as int) == wrapped
            &&& reply.out.skip(wrapped.len() as int) == out.skip(wrapped.len() as int)
        },
        DEK_LEN <= capacity ==> {
            let reply = unwrap_reply(Ok(dek), out, true, capacity);
            &&& reply.code == status::OK
            &&& reply.out_len == DEK_LEN
            &&& reply.out.len() == out.len()
            &&& reply.out.take(DEK_LEN as int) == dek
            &&& reply.out.skip(DEK_LEN as int) == out.skip(DEK_LEN as int)
        },
{
    if wrapped.len() <= capacity {
        let n = wrapped.len() as int;
        assert(with_front(out, wrapped).take(n) =~= wrapped);
        assert(with_front(out, wrapped).skip(n) =~= out.skip(n));
    }
    if DEK_LEN <= capacity {
        assert(with_front(out, dek).take(DEK_LEN as int) =~= dek);
        assert(with_front(out, dek).skip(DEK_LEN as int) =~= out.skip(DEK_LEN as int));
    }
}

/// A request to wrap that failed for want of space succeeds when it is repeated with the length
/// that was reported.
pub proof fn reported_length_suffices(wrapped: Seq<u8>, out: Seq<u8>, capacity: i32, retry: Seq<u8>)
    requires
        wrapped.len() <= i32::MAX,
        wrap_reply(Ok(wrapped), out, true, capacity).code == status::BUFFER_TOO_SMALL,
        retry.len() == wrap_reply(Ok(wrapped), out, true, capacity).out_len,
    ensures
        wrap_reply(Ok(wrapped), retry, true, retry.len() as i32) == (Reply {
            code: status::OK,
            out: wrapped,
            out_len: wrapped.len() as i32,
        }),
{
    assert(with_front(retry, wrapped) =~= wrapped);
}

} // verus!
