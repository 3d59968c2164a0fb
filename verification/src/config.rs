//! The adapter's configuration.

use crate::error::ClientError;
use vstd::prelude::*;
use vstd::string::*;

verus! {

/// Whether the host sends credentials with a request.
#[derive(Debug, Clone, Copy, PartialEq, Eq, Structural)]
pub enum CredentialsMode {
    Omit,
    SameOrigin,
    Include,
}

/// The host's request mode.
#[derive(Debug, Clone, Copy, PartialEq, Eq, Structural)]
pub enum RequestMode {
    SameOrigin,
    NoCors,
    Cors,
    Navigate,
}

/// How message bytes are encoded on the wire.
#[derive(Debug, Clone, Copy, PartialEq, Eq, Structural)]
pub enum Encoding {
    /// Raw binary.
    Binary,
    /// Text-safe base64.
    Base64,
}

impl Encoding {
    /// The content type that announces this encoding.
    pub open spec fn content_type_spec(self) -> Seq<char> {
        match self {
            Encoding::Base64 => "application/grpc-web-text+proto"@,
            Encoding::Binary => "application/grpc-web+proto"@,
        }
    }

    /// The encoding that a content type announces: base64 for the two
    /// text content types, binary for anything else.
    pub open spec fn of_content_type(value: Seq<char>) -> Encoding {
        if value == "application/grpc-web-text+proto"@ || value == "application/grpc-web-text"@ {
            Encoding::Base64
        } else {
            Encoding::Binary
        }
    }

    pub fn to_content_type(self) -> (s: &'static str)
        ensures
            s@ == self.content_type_spec(),
    {
        match self {
            Encoding::Base64 => "application/grpc-web-text+proto",
            Encoding::Binary => "application/grpc-web+proto",
        }
    }
}

/// The adapter: where requests go and how the host is asked to send them.
#[derive(Debug)]
pub struct Client {
    /// Prefix of every request's target address.
    pub base_uri: String,
    pub credentials: CredentialsMode,
    pub mode: RequestMode,
    pub encoding: Encoding,
}

impl Clone for Client {
    /// A copy that shares nothing with `self`.
    fn clone(&self) -> (c: Self)
        ensures
            c == *self,
    {
        Client {
            base_uri: self.base_uri.clone(),
            credentials: self.credentials,
            mode: self.mode,
            encoding: self.encoding,
        }
    }
}

impl Client {
    /// An adapter for `base_uri` with same-origin credentials, CORS mode and
    /// the binary encoding.
    pub fn new(base_uri: String) -> (c: Client)
        ensures
            c.base_uri == base_uri,
            c.credentials == CredentialsMode::SameOrigin,
            c.mode == RequestMode::Cors,
            c.encoding == Encoding::Binary,
    {
        Client {
            base_uri,
            credentials: CredentialsMode::SameOrigin,
            mode: RequestMode::Cors,
            encoding: Encoding::Binary,
        }
    }

    /// The address a request for `path` is sent to: the base address with
    /// `path` behind it, nothing added and nothing normalised.
    pub fn target_uri(&self, path: &str) -> (uri: String)
        ensures
            uri@ == self.base_uri@ + path@,
    {
        self.base_uri.clone().concat(path)
    }

    /// Whether the adapter can take a call. It always can: nothing is queued
    /// or pooled.
    pub fn poll_ready(&self) -> (r: Result<(), ClientError>)
        ensures
            r is Ok,
    {
        Ok(())
    }
}

} // verus!
