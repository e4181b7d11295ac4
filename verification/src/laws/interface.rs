//! The C interface, code by code.
use crate::abi::{
    bytes_view, dek_view, named_service, service_view, unwrap_reply, unwrap_request_service,
    with_front, wrap_reply, wrap_request_service, Reply,
};
use crate::error::ErrorView;
use crate::primitives::memory::zeros;
use vstd::prelude::*;
use vstd::utf8::{decode_utf8, encode_utf8, valid_utf8};

verus! {

/// Zeros are as many as asked for, and all zero.
pub proof fn zeros_are_zero(n: nat)
    ensures
        zeros(n).len() == n,
        forall|i: int| 0 <= i < n ==> #[trigger] zeros(n)[i] == 0,
{
}

/// A service is named by 1 to 255 bytes of UTF-8, and by all of them; every other argument has its
/// code: -1 for none at all or too many bytes, -7 for bytes that are no UTF-8, -8 for no bytes.
pub proof fn services_are_1_to_255_bytes_of_utf8(bytes: Seq<u8>, service: Seq<char>)
    ensures
        named_service(None) == Err::<Seq<char>, i32>(-1i32),
        !valid_utf8(bytes) ==> named_service(Some(bytes)) == Err::<Seq<char>, i32>(-7i32),
        named_service(Some(Seq::empty())) == Err::<Seq<char>, i32>(-8i32),
        valid_utf8(bytes) && bytes.len() > 255 ==> named_service(Some(bytes)) == Err::<
            Seq<char>,
            i32,
        >(-1i32),
        valid_utf8(bytes) && 1 <= bytes.len() <= 255 ==> named_service(Some(bytes)) == Ok::<
            Seq<char>,
            i32,
        >(decode_utf8(bytes)),
        1 <= encode_utf8(service).len() <= 255 ==> named_service(Some(encode_utf8(service)))
            == Ok::<Seq<char>, i32>(service),
{
    vstd::utf8::encode_utf8_valid_utf8(service);
    vstd::utf8::encode_utf8_decode_utf8(service);
}

/// A request is refused with -1 where an argument is missing or negative, or the key is not 32
/// bytes long; else its service decides.
pub proof fn requests_are_refused_for_their_arguments(
    service: Option<Seq<u8>>,
    present: bool,
    len: i32,
    capacity: i32,
)
    ensures
        wrap_request_service(service, present, len, None) == Err::<Seq<char>, i32>(-1i32),
        unwrap_request_service(service, present, len, None) == Err::<Seq<char>, i32>(-1i32),
        wrap_request_service(service, present, len, Some(capacity)) == (if present && len == 32
            && capacity >= 0 {
            named_service(service)
        } else {
            Err(-1i32)
        }),
        unwrap_request_service(service, present, len, Some(capacity)) == (if present && len >= 0
            && capacity >= 0 {
            named_service(service)
        } else {
            Err(-1i32)
        }),
{
}

/// The reply to a request to wrap: the error's code and nothing written; or, where the payload does
/// not fit, -2, its length and nothing written; or, without a buffer, -1; or else 0, the payload at
/// the front and its length.
pub proof fn replies_to_wrap_requests(
    error: ErrorView,
    wrapped: Seq<u8>,
    out: Seq<u8>,
    present: bool,
    capacity: i32,
)
    requires
        wrapped.len() <= i32::MAX,
    ensures
        wrap_reply(Err(error), out, present, capacity) == (Reply {
            code: error.code(),
            out,
            out_len: capacity,
        }),
        wrapped.len() > capacity ==> wrap_reply(Ok(wrapped), out, present, capacity) == (Reply {
            code: -2i32,
            out,
            out_len: wrapped.len() as i32,
        }),
        wrapped.len() <= capacity && !present ==> wrap_reply(Ok(wrapped), out, present, capacity)
            == (Reply { code: -1i32, out, out_len: capacity }),
        wrapped.len() <= capacity && present ==> wrap_reply(Ok(wrapped), out, present, capacity)
            == (Reply {
            code: 0,
            out: wrapped + out.skip(wrapped.len() as int),
            out_len: wrapped.len() as i32,
        }),
{
}

/// The reply to a request to unwrap: the code of the failure and zeros; or, where the key does not
/// fit, -2, 32 and zeros; or, without a buffer, -1; or else 0, the key at the front and 32.
pub proof fn replies_to_unwrap_requests(
    code: i32,
    dek: Seq<u8>,
    out: Seq<u8>,
    present: bool,
    capacity: i32,
)
    ensures
        unwrap_reply(Err(code), out, present, capacity) == (Reply {
            code,
            out: zeros(out.len()),
            out_len: capacity,
        }),
        capacity < 32 ==> unwrap_reply(Ok(dek), out, present, capacity) == (Reply {
            code: -2i32,
            out: zeros(out.len()),
            out_len: 32,
        }),
        capacity >= 32 && !present ==> unwrap_reply(Ok(dek), out, present, capacity) == (Reply {
            code: -1i32,
            out,
            out_len: capacity,
        }),
        capacity >= 32 && present ==> unwrap_reply(Ok(dek), out, present, capacity) == (Reply {
            code: 0,
            out: dek + out.skip(dek.len() as int),
            out_len: 32,
        }),
        with_front(out, dek) == dek + out.skip(dek.len() as int),
{
}

/// What comes in and goes out is seen whole.
pub proof fn arguments_are_seen_whole(bytes: &[u8], service: &str, dek: [u8; 32], code: i32)
    ensures
        bytes_view(Some(bytes)) == Some(bytes@),
        bytes_view(None) is None,
        service_view(Ok(service)) == Ok::<Seq<char>, i32>(service@),
        service_view(Err(code)) == Err::<Seq<char>, i32>(code),
        dek_view(Ok(dek)) == Ok::<Seq<u8>, i32>(dek@),
        dek_view(Err(code)) == Err::<Seq<u8>, i32>(code),
{
}

} // verus!
