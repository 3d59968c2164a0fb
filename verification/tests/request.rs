use grpc_web_client::header::request_headers;
use grpc_web_client::{
    Client, ClientError, CredentialsMode, Encoding, HeaderEntry, HeaderLine, RequestMode,
};
use http::header::{HeaderName, HeaderValue};

fn entry(name: &str, value: &[u8]) -> HeaderEntry {
    HeaderEntry { name: name.to_string(), value: HeaderValue::from_bytes(value).unwrap() }
}

fn line(name: &str, value: &str) -> HeaderLine {
    HeaderLine { name: name.to_string(), value: value.to_string() }
}

#[test]
fn new_client_has_default_policy() {
    let client = Client::new("https://api.example.com".to_string());
    assert_eq!(client.base_uri, "https://api.example.com");
    assert_eq!(client.credentials, CredentialsMode::SameOrigin);
    assert_eq!(client.mode, RequestMode::Cors);
    assert_eq!(client.encoding, Encoding::Binary);
}

#[test]
fn target_is_base_followed_by_path() {
    let client = Client::new("https://api.example.com".to_string());
    assert_eq!(
        client.target_uri("/pkg.Service/Method"),
        "https://api.example.com/pkg.Service/Method"
    );
}

#[test]
fn target_is_not_normalized() {
    let client = Client::new("https://api.example.com/".to_string());
    assert_eq!(client.target_uri("/a//b/../c"), "https://api.example.com//a//b/../c");
    let empty = Client::new(String::new());
    assert_eq!(empty.target_uri(""), "");
}

#[test]
fn content_types_of_the_encodings() {
    assert_eq!(Encoding::Binary.to_content_type(), "application/grpc-web+proto");
    assert_eq!(Encoding::Base64.to_content_type(), "application/grpc-web-text+proto");
}

#[test]
fn outbound_headers_keep_every_pair() {
    let headers = vec![
        entry("te", b"trailers"),
        entry("X-Mixed-Case", b"Some Value\twith tab"),
        entry("grpc-timeout", b"10S"),
    ];
    let lines = request_headers(&headers, Encoding::Binary).unwrap();
    assert_eq!(
        lines,
        vec![
            line("te", "trailers"),
            line("X-Mixed-Case", "Some Value\twith tab"),
            line("grpc-timeout", "10S"),
            line("x-user-agent", "grpc-web-rust/0.1"),
            line("content-type", "application/grpc-web+proto"),
        ]
    );
}

#[test]
fn outbound_headers_of_an_empty_request() {
    let lines = request_headers(&Vec::new(), Encoding::Base64).unwrap();
    assert_eq!(
        lines,
        vec![
            line("x-user-agent", "grpc-web-rust/0.1"),
            line("content-type", "application/grpc-web-text+proto"),
        ]
    );
}

#[test]
fn fixed_headers_come_after_the_callers() {
    let headers = vec![entry("content-type", b"text/plain"), entry("x-user-agent", b"mine")];
    let lines = request_headers(&headers, Encoding::Binary).unwrap();
    assert_eq!(lines.len(), 4);
    let last_of = |name: &str| {
        lines.iter().rev().find(|l| l.name == name).map(|l| l.value.clone())
    };
    assert_eq!(last_of("content-type"), Some("application/grpc-web+proto".to_string()));
    assert_eq!(last_of("x-user-agent"), Some("grpc-web-rust/0.1".to_string()));
}

#[test]
fn non_ascii_value_is_refused() {
    let headers = vec![entry("ok", b"fine"), entry("bad", &[b'a', 0xc3, 0xa9])];
    assert_eq!(
        request_headers(&headers, Encoding::Binary),
        Err(ClientError::Other("Header value contained invalid ASCII".to_string()))
    );
}

#[test]
fn request_is_built_from_the_configuration() {
    let mut client = Client::new("https://api.example.com".to_string());
    client.credentials = CredentialsMode::Include;
    client.mode = RequestMode::NoCors;
    client.encoding = Encoding::Base64;
    let headers = vec![entry("te", b"trailers")];
    let req = client.request("/pkg.Service/Method", &headers, Some(vec![0, 0, 0, 0, 1, 7])).unwrap();
    assert_eq!(req.uri, "https://api.example.com/pkg.Service/Method");
    assert_eq!(req.method, "POST");
    assert_eq!(
        req.headers,
        vec![
            line("te", "trailers"),
            line("x-user-agent", "grpc-web-rust/0.1"),
            line("content-type", "application/grpc-web-text+proto"),
        ]
    );
    assert_eq!(req.body, vec![0, 0, 0, 0, 1, 7]);
    assert_eq!(req.credentials, CredentialsMode::Include);
    assert_eq!(req.mode, RequestMode::NoCors);
}

#[test]
fn request_with_non_ascii_header_fails_before_the_body() {
    let client = Client::new("https://api.example.com".to_string());
    let headers = vec![entry("bad", &[0xff])];
    assert_eq!(
        client.request("/p", &headers, Some(vec![1])).unwrap_err(),
        ClientError::Other("Header value contained invalid ASCII".to_string())
    );
    assert_eq!(
        client.request("/p", &headers, None).unwrap_err(),
        ClientError::Other("Header value contained invalid ASCII".to_string())
    );
}

#[test]
fn request_without_a_readable_body_fails() {
    let client = Client::new("https://api.example.com".to_string());
    assert_eq!(
        client.request("/p", &Vec::new(), None).unwrap_err(),
        ClientError::Other("Failed to convert RPC body to bytes".to_string())
    );
}

#[test]
fn a_call_is_not_reached_by_later_changes() {
    let first = Client::new("https://one.example.com".to_string());
    let mut second = first.clone();
    let req = first.call("/pkg.Service/Method", &Vec::new(), Some(Vec::new())).unwrap();
    second.base_uri = "https://two.example.com".to_string();
    second.encoding = Encoding::Base64;
    assert_eq!(req.uri, "https://one.example.com/pkg.Service/Method");
    assert_eq!(first.base_uri, "https://one.example.com");
    assert_eq!(first.encoding, Encoding::Binary);
    let other = second.call("/pkg.Service/Method", &Vec::new(), Some(Vec::new())).unwrap();
    assert_eq!(other.uri, "https://two.example.com/pkg.Service/Method");
    assert_eq!(other.headers[1], line("content-type", "application/grpc-web-text+proto"));
    assert_eq!(req.headers[1], line("content-type", "application/grpc-web+proto"));
}

#[test]
fn the_adapter_is_always_ready() {
    let client = Client::new("https://api.example.com".to_string());
    assert_eq!(client.poll_ready(), Ok(()));
    let _ = client.call("/p", &Vec::new(), Some(Vec::new()));
    assert_eq!(client.poll_ready(), Ok(()));
}

#[test]
fn errors_from_header_failures() {
    let to_str = HeaderValue::from_bytes(&[0xff]).unwrap().to_str().unwrap_err();
    assert_eq!(
        ClientError::from(to_str),
        ClientError::Other("Header value contained invalid ASCII".to_string())
    );
    let name = HeaderName::from_bytes(b"").unwrap_err();
    assert_eq!(ClientError::from(name), ClientError::Other("Header name was invalid".to_string()));
    let value = HeaderValue::from_str("\n").unwrap_err();
    assert_eq!(
        ClientError::from(value),
        ClientError::Other("Header value was invalid".to_string())
    );
}

#[test]
fn error_constructors_and_text() {
    assert_eq!(ClientError::other("boom"), ClientError::Other("boom".to_string()));
    assert_eq!(
        ClientError::fetch_failed("TypeError: failed".to_string()),
        ClientError::FetchFailed("TypeError: failed".to_string())
    );
    assert_eq!(ClientError::Unspecified.message(), "Unspecified");
    assert_eq!(ClientError::other("boom").message(), "Other: boom");
    assert_eq!(ClientError::FetchFailed("x".to_string()).message(), "FetchFailed: x");
}
