//! One call, in two halves: what the host is asked to fetch, and what is made
//! of the host's answer. Between the two the embedding program awaits the host.

use crate::config::{Client, CredentialsMode, Encoding, RequestMode};
use crate::error::ClientError;
use crate::header::{
    all_visible, detected_encoding, first_defect_at, lines_view, no_defect, outbound_lines,
    request_headers, response_headers, HeaderEntry, HeaderLine, HostHeader,
};
use http::status::InvalidStatusCode;
use http::StatusCode;
use vstd::prelude::*;
use vstd::string::*;

verus! {

/// `http::status::InvalidStatusCode`, carried through as an opaque value.
#[verifier::external_type_specification]
#[verifier::external_body]
pub struct ExInvalidStatusCode(InvalidStatusCode);

/// A status code that a response can carry.
pub open spec fn is_status(code: u16) -> bool {
    100 <= code < 1000
}

/// Calls `http::StatusCode::from_u16` and hands the code back as a number
/// (`StatusCode::as_u16`). Trusted: the call succeeds exactly on 100 to 999,
/// and the code that comes back is the one that went in.
#[verifier::external_body]
fn status_from_u16(code: u16) -> (r: Result<u16, InvalidStatusCode>)
    ensures
        r is Ok <==> is_status(code),
        r matches Ok(c) ==> c == code,
{
    match StatusCode::from_u16(code) {
        Ok(status) => Ok(status.as_u16()),
        Err(e) => Err(e),
    }
}

/// What the host is asked to fetch.
#[derive(Debug)]
pub struct FetchRequest {
    pub uri: String,
    pub method: String,
    pub headers: Vec<HeaderLine>,
    pub body: Vec<u8>,
    pub credentials: CredentialsMode,
    pub mode: RequestMode,
}

/// What the host answered: the status, the entries of its header collection
/// (`None` where the collection cannot be walked), and whether the response
/// has a body stream.
#[derive(Debug)]
pub struct HostResponse {
    pub status: u16,
    pub headers: Option<Vec<HostHeader>>,
    pub has_body: bool,
}

/// The head of the response for the RPC side, and the encoding its body is
/// decoded with.
#[derive(Debug)]
pub struct ResponseParts {
    pub status: u16,
    pub headers: Vec<HeaderEntry>,
    pub encoding: Encoding,
}

impl HostResponse {
    /// Why no response can be made of this answer, if so: the first of a
    /// status out of range, headers that cannot be walked, a header entry
    /// with a defect, and a missing body.
    pub open spec fn refused_with(&self, msg: Seq<char>) -> bool {
        if !is_status(self.status) {
            msg == "Could not get response headers"@
        } else {
            match self.headers {
                None => msg == "Response headers iterator was empty"@,
                Some(items) => if !no_defect(items@) {
                    exists|i: int|
                        first_defect_at(items@, i) && msg == items@[i].defect().unwrap()
                } else {
                    !self.has_body && msg == "Response body was empty"@
                },
            }
        }
    }

    /// `parts` is this answer, checked: the same status, each header in its
    /// place with its name in lower case, and the encoding that the headers
    /// announce.
    pub open spec fn accepted_as(&self, parts: ResponseParts) -> bool {
        &&& is_status(self.status)
        &&& self.has_body
        &&& parts.status == self.status
        &&& self.headers matches Some(items) && no_defect(items@) && parts.headers.len()
            == items.len() && forall|j: int|
            0 <= j < items.len() ==> (#[trigger] items[j]).accepted_as(parts.headers[j])
        &&& parts.encoding == detected_encoding(parts.headers@, 0)
    }
}

impl Client {
    /// The host request for a call to `path` with the caller's `headers` and
    /// the drained `body` (`None` where the body could not be read). Fails on
    /// a header value that is not visible ASCII, and after that on a body
    /// that could not be read; the configuration is not changed.
    pub fn request(&self, path: &str, headers: &Vec<HeaderEntry>, body: Option<Vec<u8>>) -> (r:
        Result<FetchRequest, ClientError>)
        ensures
            match r {
                Ok(req) => {
                    &&& all_visible(headers@)
                    &&& body == Some(req.body)
                    &&& req.uri@ == self.base_uri@ + path@
                    &&& req.method@ == "POST"@
                    &&& lines_view(req.headers@) == outbound_lines(headers@, self.encoding)
                    &&& req.credentials == self.credentials
                    &&& req.mode == self.mode
                },
                Err(e) => if !all_visible(headers@) {
                    e.is_other("Header value contained invalid ASCII"@)
                } else {
                    body is None && e.is_other("Failed to convert RPC body to bytes"@)
                },
            },
    {
        let uri = self.target_uri(path);
        let lines = match request_headers(headers, self.encoding) {
            Ok(lines) => lines,
            Err(e) => {
                return Err(e);
            },
        };
        match body {
            None => Err(ClientError::other("Failed to convert RPC body to bytes")),
            Some(bytes) => Ok(
                FetchRequest {
                    uri,
                    method: String::from_str("POST"),
                    headers: lines,
                    body: bytes,
                    credentials: self.credentials,
                    mode: self.mode,
                },
            ),
        }
    }

    /// Starts a call on a copy of the configuration, so that what is done to
    /// this adapter afterwards does not reach the call.
    pub fn call(&self, path: &str, headers: &Vec<HeaderEntry>, body: Option<Vec<u8>>) -> (r:
        Result<FetchRequest, ClientError>)
        ensures
            match r {
                Ok(req) => {
                    &&& all_visible(headers@)
                    &&& body == Some(req.body)
                    &&& req.uri@ == self.base_uri@ + path@
                    &&& req.method@ == "POST"@
                    &&& lines_view(req.headers@) == outbound_lines(headers@, self.encoding)
                    &&& req.credentials == self.credentials
                    &&& req.mode == self.mode
                },
                Err(e) => if !all_visible(headers@) {
                    e.is_other("Header value contained invalid ASCII"@)
                } else {
                    body is None && e.is_other("Failed to convert RPC body to bytes"@)
                },
            },
    {
        let snapshot = self.clone();
        snapshot.request(path, headers, body)
    }

    /// What the call returns, given how the fetch ended: the host's rejection
    /// unchanged, or the host's answer checked part by part. Either a whole
    /// response comes back or an error, never part of a response.
    pub fn response(&self, outcome: Result<HostResponse, String>) -> (r: Result<
        ResponseParts,
        ClientError,
    >)
        ensures
            match outcome {
                Err(payload) => r matches Err(e) && e.is_fetch_failed(payload@),
                Ok(host) => match r {
                    Ok(parts) => host.accepted_as(parts),
                    Err(e) => exists|msg: Seq<char>|
                        #[trigger] host.refused_with(msg) && e.is_other(msg),
                },
            },
    {
        let host = match outcome {
            Err(payload) => {
                return Err(ClientError::fetch_failed(payload));
            },
            Ok(host) => host,
        };
        let status = match status_from_u16(host.status) {
            Ok(status) => status,
            Err(_) => {
                proof {
                    assert(host.refused_with("Could not get response headers"@));
                }
                return Err(ClientError::other("Could not get response headers"));
            },
        };
        let items = match &host.headers {
            None => {
                proof {
                    assert(host.refused_with("Response headers iterator was empty"@));
                }
                return Err(ClientError::other("Response headers iterator was empty"));
            },
            Some(items) => items,
        };
        let headers = match response_headers(items) {
            Ok(headers) => headers,
            Err(e) => {
                proof {
                    let i = choose|i: int|
                        first_defect_at(items@, i) && e.is_other(items@[i].defect().unwrap());
                    assert(host.refused_with(items@[i].defect().unwrap()));
                }
                return Err(e);
            },
        };
        if !host.has_body {
            proof {
                assert(host.refused_with("Response body was empty"@));
            }
            return Err(ClientError::other("Response body was empty"));
        }
        let encoding = Encoding::from_content_type(&headers);
        Ok(ResponseParts { status, headers, encoding })
    }
}

} // verus!
