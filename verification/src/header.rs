//! Header names and values at the boundary between the RPC side and the host.
//!
//! Names and values are checked with the `http` crate, as the RPC side will
//! check them again; the functions here say exactly which inputs pass.

use crate::config::Encoding;
use crate::error::ClientError;
use http::header::{HeaderName, HeaderValue, InvalidHeaderName, InvalidHeaderValue, ToStrError};
use vstd::prelude::*;
use vstd::string::*;
use vstd::utf8::{encode_utf8, is_ascii_chars, is_ascii_chars_encode_utf8};

verus! {

/// `http::header::HeaderValue`, carried through as an opaque value.
#[verifier::external_type_specification]
#[verifier::external_body]
pub struct ExHeaderValue(HeaderValue);

/// The bytes that a header value holds.
pub uninterp spec fn header_value_bytes(v: HeaderValue) -> Seq<u8>;

/// A byte that a header value may hold: a tab, or anything from the space up
/// but for DEL.
pub open spec fn is_value_byte(b: u8) -> bool {
    (b >= 32 && b != 127) || b == 9
}

/// A byte of visible ASCII: a tab, or from the space up to the tilde.
pub open spec fn is_visible_byte(b: u8) -> bool {
    (b >= 32 && b < 127) || b == 9
}

/// A byte that a header name may hold: letters, digits and
/// ``! " # $ % & ' * + - . ^ _ ` | ~``.
pub open spec fn is_name_byte(b: u8) -> bool {
    (33 <= b <= 39) || b == 42 || b == 43 || b == 45 || b == 46 || (48 <= b <= 57) || (65 <= b
        <= 90) || (94 <= b <= 122) || b == 124 || b == 126
}

/// An upper-case letter becomes lower case; any other byte stays.
pub open spec fn lower_byte(b: u8) -> u8 {
    if 65 <= b <= 90 {
        (b + 32) as u8
    } else {
        b
    }
}

pub open spec fn all_value_bytes(s: Seq<u8>) -> bool {
    forall|i: int| 0 <= i < s.len() ==> is_value_byte(#[trigger] s[i])
}

pub open spec fn all_visible_bytes(s: Seq<u8>) -> bool {
    forall|i: int| 0 <= i < s.len() ==> is_visible_byte(#[trigger] s[i])
}

/// A header name: one to 65535 bytes, each a name byte.
pub open spec fn valid_name(s: Seq<u8>) -> bool {
    &&& 0 < s.len() <= 65535
    &&& forall|i: int| 0 <= i < s.len() ==> is_name_byte(#[trigger] s[i])
}

/// The name in lower case, as text.
pub open spec fn normalized_name(s: Seq<u8>) -> Seq<char> {
    Seq::new(s.len(), |i: int| lower_byte(s[i]) as char)
}

/// ASCII bytes as text, byte for character.
pub open spec fn ascii_text(s: Seq<u8>) -> Seq<char> {
    Seq::new(s.len(), |i: int| s[i] as char)
}

/// Calls `http::header::HeaderName::from_bytes` and hands the name back as
/// text (`HeaderName::as_str`). Trusted: the call succeeds exactly on one to
/// 65535 name bytes, and the name that comes back is the input in lower case.
#[verifier::external_body]
fn name_from_bytes(src: &[u8]) -> (r: Result<String, InvalidHeaderName>)
    ensures
        r is Ok <==> valid_name(src@),
        r matches Ok(name) ==> name@ == normalized_name(src@),
{
    match HeaderName::from_bytes(src) {
        Ok(name) => Ok(name.as_str().to_owned()),
        Err(e) => Err(e),
    }
}

/// Calls `http::header::HeaderValue::from_str`. Trusted: the call succeeds
/// exactly when every byte of the text may stand in a header value, and the
/// value then holds the bytes of the text.
#[verifier::external_body]
fn value_from_str(src: &str) -> (r: Result<HeaderValue, InvalidHeaderValue>)
    ensures
        r is Ok <==> all_value_bytes(src.spec_bytes()),
        r matches Ok(v) ==> header_value_bytes(v) == src.spec_bytes(),
{
    HeaderValue::from_str(src)
}

/// Calls `http::header::HeaderValue::to_str`. Trusted: the call succeeds
/// exactly when every byte of the value is visible ASCII, and the text that
/// comes back is those bytes.
#[verifier::external_body]
fn value_to_str(v: &HeaderValue) -> (r: Result<String, ToStrError>)
    ensures
        r is Ok <==> all_visible_bytes(header_value_bytes(*v)),
        r matches Ok(s) ==> s@ == ascii_text(header_value_bytes(*v)),
{
    match v.to_str() {
        Ok(text) => Ok(text.to_owned()),
        Err(e) => Err(e),
    }
}

/// A header as the RPC side holds it.
#[derive(Debug)]
pub struct HeaderEntry {
    pub name: String,
    pub value: HeaderValue,
}

/// A header as the host takes it: one `set` of `name` to `value`.
#[derive(Debug, Clone, PartialEq, Eq)]
pub struct HeaderLine {
    pub name: String,
    pub value: String,
}

/// An entry of the host's response headers. The host may leave out either
/// part.
#[derive(Debug, Clone, PartialEq, Eq)]
pub struct HostHeader {
    pub name: Option<String>,
    pub value: Option<String>,
}

impl View for HeaderLine {
    type V = (Seq<char>, Seq<char>);

    open spec fn view(&self) -> (Seq<char>, Seq<char>) {
        (self.name@, self.value@)
    }
}

impl HeaderEntry {
    /// The value is visible ASCII, so the host can take it as text.
    pub open spec fn is_visible(&self) -> bool {
        all_visible_bytes(header_value_bytes(self.value))
    }

    /// The line that sets this header on the host: the name as it is, the
    /// value as text.
    pub open spec fn line(&self) -> (Seq<char>, Seq<char>) {
        (self.name@, ascii_text(header_value_bytes(self.value)))
    }
}

/// The two lines that every request carries, whatever the caller set.
pub open spec fn fixed_lines(encoding: Encoding) -> Seq<(Seq<char>, Seq<char>)> {
    seq![
        ("x-user-agent"@, "grpc-web-rust/0.1"@),
        ("content-type"@, encoding.content_type_spec()),
    ]
}

/// The lines of a request: the caller's headers in their order, then the
/// fixed lines, which so override a caller's header of the same name.
pub open spec fn outbound_lines(headers: Seq<HeaderEntry>, encoding: Encoding) -> Seq<
    (Seq<char>, Seq<char>),
> {
    Seq::new(headers.len(), |i: int| headers[i].line()) + fixed_lines(encoding)
}

pub open spec fn all_visible(headers: Seq<HeaderEntry>) -> bool {
    forall|i: int| 0 <= i < headers.len() ==> (#[trigger] headers[i]).is_visible()
}

pub open spec fn lines_view(lines: Seq<HeaderLine>) -> Seq<(Seq<char>, Seq<char>)> {
    Seq::new(lines.len(), |i: int| lines[i]@)
}

/// The header lines of a request with the caller's `headers` and the given
/// encoding. Fails on the first value that is not visible ASCII.
pub fn request_headers(headers: &Vec<HeaderEntry>, encoding: Encoding) -> (r: Result<
    Vec<HeaderLine>,
    ClientError,
>)
    ensures
        match r {
            Ok(lines) => all_visible(headers@) && lines_view(lines@) == outbound_lines(
                headers@,
                encoding,
            ),
            Err(e) => !all_visible(headers@) && e.is_other(
                "Header value contained invalid ASCII"@,
            ),
        },
{
    let mut lines: Vec<HeaderLine> = Vec::new();
    let mut i: usize = 0;
    while i < headers.len()
        invariant
            i <= headers.len(),
            lines.len() == i,
            forall|j: int| 0 <= j < i ==> (#[trigger] headers[j]).is_visible(),
            forall|j: int| 0 <= j < i ==> (#[trigger] lines[j])@ == headers[j].line(),
        decreases headers.len() - i,
    {
        let h = &headers[i];
        match value_to_str(&h.value) {
            Ok(text) => {
                lines.push(HeaderLine { name: h.name.clone(), value: text });
            },
            Err(e) => {
                return Err(ClientError::from(e));
            },
        }
        i += 1;
    }
    lines.push(
        HeaderLine {
            name: String::from_str("x-user-agent"),
            value: String::from_str("grpc-web-rust/0.1"),
        },
    );
    lines.push(
        HeaderLine {
            name: String::from_str("content-type"),
            value: String::from_str(encoding.to_content_type()),
        },
    );
    assert(lines_view(lines@) =~= outbound_lines(headers@, encoding));
    Ok(lines)
}

/// The value that the host holds for `name` once `lines` have been set one
/// after the other: that of the last line with this name.
pub open spec fn effective(lines: Seq<(Seq<char>, Seq<char>)>, name: Seq<char>) -> Option<
    Seq<char>,
>
    decreases lines.len(),
{
    if lines.len() == 0 {
        None
    } else if lines.last().0 == name {
        Some(lines.last().1)
    } else {
        effective(lines.drop_last(), name)
    }
}

/// Every caller's header goes out as it is: the line at its place has its
/// name, letter for letter, and its value; two lines follow them.
pub proof fn lemma_outbound_keeps_each_header(
    headers: Seq<HeaderEntry>,
    encoding: Encoding,
    i: int,
)
    requires
        0 <= i < headers.len(),
    ensures
        outbound_lines(headers, encoding).len() == headers.len() + 2,
        outbound_lines(headers, encoding)[i] == headers[i].line(),
        outbound_lines(headers, encoding)[i].0 == headers[i].name@,
        outbound_lines(headers, encoding)[i].1.len() == header_value_bytes(headers[i].value).len(),
{
}

/// Whatever the caller set, the host ends up with the adapter's own
/// `x-user-agent` and with the content type of the configured encoding.
pub proof fn lemma_fixed_lines_win(headers: Seq<HeaderEntry>, encoding: Encoding)
    ensures
        effective(outbound_lines(headers, encoding), "content-type"@) == Some(
            encoding.content_type_spec(),
        ),
        effective(outbound_lines(headers, encoding), "x-user-agent"@) == Some(
            "grpc-web-rust/0.1"@,
        ),
{
    reveal_strlit("content-type");
    reveal_strlit("x-user-agent");
    let lines = outbound_lines(headers, encoding);
    assert(lines.last() == ("content-type"@, encoding.content_type_spec()));
    assert("content-type"@[0] != "x-user-agent"@[0]);
    let before = lines.drop_last();
    assert(before.last() == ("x-user-agent"@, "grpc-web-rust/0.1"@));
    assert(effective(lines, "x-user-agent"@) == effective(before, "x-user-agent"@));
}

impl HostHeader {
    /// What is wrong with this entry, if anything: the first of a missing
    /// name, a name that is no header name, a missing value, and a value with
    /// a byte that no header value may hold.
    pub open spec fn defect(&self) -> Option<Seq<char>> {
        match (self.name, self.value) {
            (None, _) => Some("Header pair had no name"@),
            (Some(n), None) => if !valid_name(encode_utf8(n@)) {
                Some("Header name was invalid"@)
            } else {
                Some("Header pair had no value"@)
            },
            (Some(n), Some(v)) => if !valid_name(encode_utf8(n@)) {
                Some("Header name was invalid"@)
            } else if !all_value_bytes(encode_utf8(v@)) {
                Some("Header value was invalid"@)
            } else {
                None
            },
        }
    }

    /// `entry` is this host entry as the RPC side holds it: the name in lower
    /// case, the value byte for byte.
    pub open spec fn accepted_as(&self, entry: HeaderEntry) -> bool {
        &&& self.name matches Some(n) && entry.name@ == normalized_name(encode_utf8(n@))
        &&& self.value matches Some(v) && header_value_bytes(entry.value) == encode_utf8(v@)
    }

    /// Checks one entry and turns it into a header of the RPC side.
    pub fn accept(&self) -> (r: Result<HeaderEntry, ClientError>)
        ensures
            match r {
                Ok(entry) => self.defect() is None && self.accepted_as(entry),
                Err(e) => self.defect() matches Some(msg) && e.is_other(msg),
            },
    {
        let name = match &self.name {
            None => {
                return Err(ClientError::other("Header pair had no name"));
            },
            Some(n) => match name_from_bytes(n.as_str().as_bytes()) {
                Ok(name) => name,
                Err(e) => {
                    return Err(ClientError::from(e));
                },
            },
        };
        let value = match &self.value {
            None => {
                return Err(ClientError::other("Header pair had no value"));
            },
            Some(v) => match value_from_str(v.as_str()) {
                Ok(value) => value,
                Err(e) => {
                    return Err(ClientError::from(e));
                },
            },
        };
        Ok(HeaderEntry { name, value })
    }
}

/// Visible ASCII goes to the host as text that holds the very same bytes.
pub proof fn lemma_visible_text_keeps_bytes(bytes: Seq<u8>)
    requires
        all_visible_bytes(bytes),
    ensures
        is_ascii_chars(ascii_text(bytes)),
        encode_utf8(ascii_text(bytes)) == bytes,
{
    let text = ascii_text(bytes);
    assert forall|i: int| 0 <= i < text.len() implies '\0' <= #[trigger] text[i] <= '\u{7f}' by {
        assert(is_visible_byte(bytes[i]));
    }
    is_ascii_chars_encode_utf8(text);
    assert forall|i: int| 0 <= i < bytes.len() implies encode_utf8(text)[i] == bytes[i] by {
        assert(is_visible_byte(bytes[i]));
        assert(text[i] as u8 == encode_utf8(text)[i]);
    }
    assert(encode_utf8(text) =~= bytes);
}

/// A header that came from the host with an ASCII value goes out again with
/// the same value, under its name in lower case.
pub proof fn lemma_inbound_header_goes_out_unchanged(host: HostHeader, entry: HeaderEntry)
    requires
        host.defect() is None,
        host.accepted_as(entry),
        is_ascii_chars(host.value.unwrap()@),
    ensures
        entry.is_visible(),
        entry.line() == (
            normalized_name(encode_utf8(host.name.unwrap()@)),
            host.value.unwrap()@,
        ),
{
    let text = host.value.unwrap()@;
    let bytes = header_value_bytes(entry.value);
    is_ascii_chars_encode_utf8(text);
    assert forall|i: int| 0 <= i < bytes.len() implies is_visible_byte(#[trigger] bytes[i]) by {
        assert(is_value_byte(bytes[i]));
        assert(text[i] as u8 == bytes[i]);
    }
    assert forall|i: int| 0 <= i < text.len() implies ascii_text(bytes)[i] == text[i] by {
        assert(text[i] as u8 == bytes[i]);
        assert('\0' <= text[i] <= '\u{7f}');
    }
    assert(ascii_text(bytes) =~= text);
}

/// The entry at `i` is the first with a defect.
pub open spec fn first_defect_at(items: Seq<HostHeader>, i: int) -> bool {
    &&& 0 <= i < items.len()
    &&& items[i].defect() is Some
    &&& forall|j: int| 0 <= j < i ==> (#[trigger] items[j]).defect() is None
}

pub open spec fn no_defect(items: Seq<HostHeader>) -> bool {
    forall|j: int| 0 <= j < items.len() ==> (#[trigger] items[j]).defect() is None
}

/// The headers of a response, from the host's entries in their order. Fails
/// with the defect of the first entry that has one; no entry is skipped.
pub fn response_headers(items: &Vec<HostHeader>) -> (r: Result<Vec<HeaderEntry>, ClientError>)
    ensures
        match r {
            Ok(entries) => {
                &&& no_defect(items@)
                &&& entries.len() == items.len()
                &&& forall|j: int|
                    0 <= j < items.len() ==> (#[trigger] items[j]).accepted_as(entries[j])
            },
            Err(e) => exists|i: int|
                first_defect_at(items@, i) && e.is_other(items[i].defect().unwrap()),
        },
{
    let mut entries: Vec<HeaderEntry> = Vec::new();
    let mut i: usize = 0;
    while i < items.len()
        invariant
            i <= items.len(),
            entries.len() == i,
            forall|j: int| 0 <= j < i ==> (#[trigger] items[j]).defect() is None,
            forall|j: int| 0 <= j < i ==> (#[trigger] items[j]).accepted_as(entries[j]),
        decreases items.len() - i,
    {
        match items[i].accept() {
            Ok(entry) => {
                entries.push(entry);
            },
            Err(e) => {
                assert(first_defect_at(items@, i as int));
                return Err(e);
            },
        }
        i += 1;
    }
    Ok(entries)
}

/// The encoding that a content-type value announces.
pub open spec fn encoding_of_value(bytes: Seq<u8>) -> Encoding {
    if all_visible_bytes(bytes) {
        Encoding::of_content_type(ascii_text(bytes))
    } else {
        Encoding::Binary
    }
}

/// The encoding that the first `content-type` header at or after `from`
/// announces; binary where there is none.
pub open spec fn detected_encoding(headers: Seq<HeaderEntry>, from: int) -> Encoding
    decreases headers.len() - from,
{
    if from < 0 || from >= headers.len() {
        Encoding::Binary
    } else if headers[from].name@ == "content-type"@ {
        encoding_of_value(header_value_bytes(headers[from].value))
    } else {
        detected_encoding(headers, from + 1)
    }
}

impl Encoding {
    /// The encoding in effect for a response with these headers.
    pub fn from_content_type(headers: &Vec<HeaderEntry>) -> (e: Encoding)
        ensures
            e == detected_encoding(headers@, 0),
    {
        let content_type = String::from_str("content-type");
        let mut i: usize = 0;
        while i < headers.len()
            invariant
                i <= headers.len(),
                content_type@ == "content-type"@,
                detected_encoding(headers@, 0) == detected_encoding(headers@, i as int),
            decreases headers.len() - i,
        {
            if headers[i].name == content_type {
                return match value_to_str(&headers[i].value) {
                    Ok(text) => {
                        if text == String::from_str("application/grpc-web-text+proto") || text
                            == String::from_str("application/grpc-web-text") {
                            Encoding::Base64
                        } else {
                            Encoding::Binary
                        }
                    },
                    Err(_) => Encoding::Binary,
                };
            }
            i += 1;
        }
        Encoding::Binary
    }
}

} // verus!
