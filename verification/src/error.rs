//! What can go wrong behind the C interface, and the status code of each.
use crate::status;
use crate::text::concat2;
use vstd::prelude::*;

verus! {

/// A failure of a provider or of the wrapping protocol.
#[derive(Debug)]
pub enum Error {
    /// No provider is available at all.
    NoProviderAvailable,
    /// A provider failed; the text says how, for logs only.
    Provider(String),
    /// A provider is reachable, has no key for the service and may not create one.
    KeyNotProvisioned(&'static str),
    /// A payload is malformed or does not authenticate.
    Crypto(&'static str),
}

/// An [`Error`] with its text as a sequence of characters.
pub enum ErrorView {
    NoProviderAvailable,
    Provider(Seq<char>),
    KeyNotProvisioned(Seq<char>),
    Crypto(Seq<char>),
}

impl View for Error {
    type V = ErrorView;

    open spec fn view(&self) -> ErrorView {
        match self {
            Error::NoProviderAvailable => ErrorView::NoProviderAvailable,
            Error::Provider(text) => ErrorView::Provider(text@),
            Error::KeyNotProvisioned(text) => ErrorView::KeyNotProvisioned(text@),
            Error::Crypto(text) => ErrorView::Crypto(text@),
        }
    }
}

impl ErrorView {
    /// The status code that stands for this error at the C interface.
    pub open spec fn code(self) -> i32 {
        match self {
            ErrorView::NoProviderAvailable => status::PROVIDER_UNAVAILABLE,
            ErrorView::Provider(_) => status::PROVIDER_ERROR,
            ErrorView::KeyNotProvisioned(_) => status::PROVIDER_ERROR,
            ErrorView::Crypto(_) => status::CRYPTO_ERROR,
        }
    }

    /// The message for a reader of the log.
    pub open spec fn message(self) -> Seq<char> {
        match self {
            ErrorView::NoProviderAvailable => "no KEK provider is available"@,
            ErrorView::Provider(text) => "provider error: "@ + text,
            ErrorView::KeyNotProvisioned(text) => "no key provisioned: "@ + text,
            ErrorView::Crypto(text) => "cryptographic error: "@ + text,
        }
    }
}

impl Error {
    /// The status code that the C interface returns for this error.
    pub fn status_code(&self) -> (code: i32)
        ensures
            code == self@.code(),
    {
        match self {
            Error::NoProviderAvailable => status::PROVIDER_UNAVAILABLE,
            Error::Provider(_) => status::PROVIDER_ERROR,
            Error::KeyNotProvisioned(_) => status::PROVIDER_ERROR,
            Error::Crypto(_) => status::CRYPTO_ERROR,
        }
    }

    /// The message for a reader of the log.
    pub fn to_string(&self) -> (message: String)
        ensures
            message@ == self@.message(),
    {
        match self {
            Error::NoProviderAvailable => String::from_str("no KEK provider is available"),
            Error::Provider(text) => concat2("provider error: ", text.as_str()),
            Error::KeyNotProvisioned(text) => concat2("no key provisioned: ", text),
            Error::Crypto(text) => concat2("cryptographic error: ", text),
        }
    }
}

/// The outcome of an operation, with value and error taken by their views.
pub open spec fn outcome<T: View>(r: Result<T, Error>) -> Result<T::V, ErrorView> {
    match r {
        Ok(value) => Ok(value@),
        Err(error) => Err(error@),
    }
}

/// No error is reported as success.
pub proof fn errors_never_report_success(error: ErrorView)
    ensures
        error.code() < status::OK,
{
}

} // verus!
