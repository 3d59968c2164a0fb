//! The one error type that every failure of a call is turned into.

use http::header::{InvalidHeaderName, InvalidHeaderValue, ToStrError};
use vstd::prelude::*;
use vstd::std_specs::convert::FromSpecImpl;
use vstd::string::*;

verus! {

/// `http::header::ToStrError`, carried through as an opaque value.
#[verifier::external_type_specification]
#[verifier::external_body]
pub struct ExToStrError(ToStrError);

/// `http::header::InvalidHeaderName`, carried through as an opaque value.
#[verifier::external_type_specification]
#[verifier::external_body]
pub struct ExInvalidHeaderName(InvalidHeaderName);

/// `http::header::InvalidHeaderValue`, carried through as an opaque value.
#[verifier::external_type_specification]
#[verifier::external_body]
pub struct ExInvalidHeaderValue(InvalidHeaderValue);

/// What went wrong with a call. An error ends the call that produced it.
#[derive(Debug, Clone, PartialEq, Eq)]
pub enum ClientError {
    /// A failure with nothing more known of it.
    Unspecified,
    /// The host rejected the operation; the payload is the host's own error,
    /// rendered as text and otherwise untouched.
    FetchFailed(String),
    /// A failure described in words.
    Other(String),
}

impl ClientError {
    /// This error is the descriptive variant with exactly the text `msg`.
    pub open spec fn is_other(&self, msg: Seq<char>) -> bool {
        match self {
            ClientError::Other(m) => m@ == msg,
            _ => false,
        }
    }

    /// This error is the host rejection with exactly the payload `payload`.
    pub open spec fn is_fetch_failed(&self, payload: Seq<char>) -> bool {
        match self {
            ClientError::FetchFailed(p) => p@ == payload,
            _ => false,
        }
    }

    /// A descriptive failure with the text `msg`.
    pub fn other(msg: &str) -> (e: ClientError)
        ensures
            e.is_other(msg@),
    {
        ClientError::Other(String::from_str(msg))
    }

    /// The host's rejection, kept as it came.
    pub fn fetch_failed(payload: String) -> (e: ClientError)
        ensures
            e == ClientError::FetchFailed(payload),
    {
        ClientError::FetchFailed(payload)
    }

    /// The text of this error: the variant's name, and for a variant with a
    /// payload the payload behind a colon.
    pub fn message(&self) -> (s: String)
        ensures
            s@ == self.message_spec(),
    {
        match self {
            ClientError::Unspecified => String::from_str("Unspecified"),
            ClientError::FetchFailed(p) => String::from_str("FetchFailed: ").concat(p.as_str()),
            ClientError::Other(m) => String::from_str("Other: ").concat(m.as_str()),
        }
    }

    /// The text of this error, as a value.
    pub open spec fn message_spec(&self) -> Seq<char> {
        match self {
            ClientError::Unspecified => "Unspecified"@,
            ClientError::FetchFailed(p) => "FetchFailed: "@ + p@,
            ClientError::Other(m) => "Other: "@ + m@,
        }
    }
}

// A spec function cannot build the text that an error carries, so each
// conversion states its result in the `ensures` of `from` itself.
impl FromSpecImpl<ToStrError> for ClientError {
    open spec fn obeys_from_spec() -> bool {
        false
    }

    open spec fn from_spec(v: ToStrError) -> Self {
        ClientError::Unspecified
    }
}

impl From<ToStrError> for ClientError {
    /// A header value that is not visible ASCII.
    fn from(v: ToStrError) -> (e: Self)
        ensures
            e.is_other("Header value contained invalid ASCII"@),
    {
        ClientError::other("Header value contained invalid ASCII")
    }
}

impl FromSpecImpl<InvalidHeaderName> for ClientError {
    open spec fn obeys_from_spec() -> bool {
        false
    }

    open spec fn from_spec(v: InvalidHeaderName) -> Self {
        ClientError::Unspecified
    }
}

impl From<InvalidHeaderName> for ClientError {
    /// A header name that is no HTTP token.
    fn from(v: InvalidHeaderName) -> (e: Self)
        ensures
            e.is_other("Header name was invalid"@),
    {
        ClientError::other("Header name was invalid")
    }
}

impl FromSpecImpl<InvalidHeaderValue> for ClientError {
    open spec fn obeys_from_spec() -> bool {
        false
    }

    open spec fn from_spec(v: InvalidHeaderValue) -> Self {
        ClientError::Unspecified
    }
}

impl From<InvalidHeaderValue> for ClientError {
    /// A header value with a byte that no header value may hold.
    fn from(v: InvalidHeaderValue) -> (e: Self)
        ensures
            e.is_other("Header value was invalid"@),
    {
        ClientError::other("Header value was invalid")
    }
}

} // verus!
