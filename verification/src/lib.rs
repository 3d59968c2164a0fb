//! Transport adapter between an RPC client stack and a host fetch primitive.
//!
//! The library holds the decisions of one call: the target address, the header
//! lines that go out, the checks on what the host hands back, and the state of
//! the response body while the host stream is read. The host calls themselves
//! are made by the embedding program.

pub mod body;
pub mod config;
pub mod dispatch;
pub mod error;
pub mod header;

pub use body::{HostRead, ReadableStreamBody, StreamError};
pub use config::{Client, CredentialsMode, Encoding, RequestMode};
pub use dispatch::{FetchRequest, HostResponse, ResponseParts};
pub use error::ClientError;
pub use header::{HeaderEntry, HeaderLine, HostHeader};
