//! Status codes of the C interface.
use vstd::prelude::*;

verus! {

/// Success.
pub const OK: i32 = 0;

/// A null pointer, a wrong length or an unusable service name.
pub const INVALID_ARGUMENT: i32 = -1;

/// The output buffer is smaller than the result.
pub const BUFFER_TOO_SMALL: i32 = -2;

/// No provider of key encryption keys could be reached.
pub const PROVIDER_UNAVAILABLE: i32 = -3;

/// A provider was reached but gave no key.
pub const PROVIDER_ERROR: i32 = -4;

/// A malformed payload, or one that does not authenticate.
pub const CRYPTO_ERROR: i32 = -5;

/// A panic was caught at the interface.
pub const INTERNAL_ERROR: i32 = -6;

/// The service name is not valid UTF-8.
pub const INVALID_UTF8: i32 = -7;

/// The service name is empty.
pub const MISSING_SERVICE_NAME: i32 = -8;

} // verus!
