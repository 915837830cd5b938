//! Decoded requests and responses as they travel between the actors.

use crate::headers::{clone_headers, empty_headers, header_values, HeaderView, Headers};
use vstd::prelude::*;
use vstd::string::*;

verus! {

/// Status of a response synthesized for an unknown prefix or service.
pub const STATUS_NOT_FOUND: u16 = 404;

/// Status of the response a listener gives when its own outer bound expires.
pub const STATUS_REQUEST_TIMEOUT: u16 = 408;

/// Status of a response synthesized when a worker could not be started or a
/// request was cancelled.
pub const STATUS_SERVICE_UNAVAILABLE: u16 = 503;

/// Status of the response synthesized when a service misses its deadline.
pub const STATUS_GATEWAY_TIMEOUT: u16 = 504;

/// Status of a successful response.
pub const STATUS_OK: u16 = 200;

/// Status of the response to a request that cannot be taken in.
pub const STATUS_BAD_REQUEST: u16 = 400;

/// Status of the response given in place of a reply that cannot be passed
/// on.
pub const STATUS_BAD_GATEWAY: u16 = 502;

/// Whether `status` is one a response can carry: a number of three digits.
pub open spec fn is_valid_status(status: u16) -> bool {
    100 <= status <= 999
}

#[derive(Clone, Copy, Debug, PartialEq, Eq, Structural, Hash)]
pub enum Method {
    Options,
    Get,
    Post,
    Put,
    Delete,
    Head,
    Trace,
    Connect,
    Patch,
}

#[derive(Clone, Copy, Debug, PartialEq, Eq, Structural, Hash)]
pub enum Version {
    Http09,
    Http10,
    Http11,
    Http2,
    Http3,
}

/// Everything of a request but its body.
#[derive(Debug, PartialEq, Eq)]
pub struct RequestMetadata {
    pub method: Method,
    pub uri: String,
    pub version: Version,
    pub headers: Headers,
}

/// A decoded request.
#[derive(Debug, PartialEq, Eq)]
pub struct Request {
    pub metadata: RequestMetadata,
    pub body: Vec<u8>,
}

/// Everything of a response but its body.
#[derive(Debug, PartialEq, Eq)]
pub struct ResponseMetadata {
    pub status: u16,
    pub version: Version,
    pub headers: Headers,
}

/// A response on its way back to the caller.
#[derive(Debug, PartialEq, Eq)]
pub struct Response {
    pub metadata: ResponseMetadata,
    pub body: Vec<u8>,
}

/// The mathematical value of a [`Request`].
pub struct RequestView {
    pub method: Method,
    pub uri: Seq<char>,
    pub version: Version,
    pub headers: HeaderView,
    pub body: Seq<u8>,
}

/// The mathematical value of a [`Response`].
pub struct ResponseView {
    pub status: u16,
    pub version: Version,
    pub headers: HeaderView,
    pub body: Seq<u8>,
}

impl View for Request {
    type V = RequestView;

    open spec fn view(&self) -> RequestView {
        RequestView {
            method: self.metadata.method,
            uri: self.metadata.uri@,
            version: self.metadata.version,
            headers: header_values(self.metadata.headers),
            body: self.body@,
        }
    }
}

impl View for Response {
    type V = ResponseView;

    open spec fn view(&self) -> ResponseView {
        ResponseView {
            status: self.metadata.status,
            version: self.metadata.version,
            headers: header_values(self.metadata.headers),
            body: self.body@,
        }
    }
}

impl Clone for Request {
    fn clone(&self) -> (copy: Self)
        ensures
            copy@ == self@,
    {
        Request {
            metadata: RequestMetadata {
                method: self.metadata.method,
                uri: self.metadata.uri.clone(),
                version: self.metadata.version,
                headers: clone_headers(&self.metadata.headers),
            },
            body: self.body.clone(),
        }
    }
}

impl Clone for Response {
    fn clone(&self) -> (copy: Self)
        ensures
            copy@ == self@,
    {
        Response {
            metadata: ResponseMetadata {
                status: self.metadata.status,
                version: self.metadata.version,
                headers: clone_headers(&self.metadata.headers),
            },
            body: self.body.clone(),
        }
    }
}

/// A response without headers, as the runtime makes up itself.
pub open spec fn synthesized(status: u16, version: Version, body: Seq<u8>) -> ResponseView {
    ResponseView { status, version, headers: Map::empty(), body }
}

/// Answer to a request whose service did not reply before its deadline.
pub open spec fn timed_out() -> ResponseView {
    synthesized(STATUS_GATEWAY_TIMEOUT, Version::Http11, "Service timed out".spec_bytes())
}

/// Answer to a request for which no worker could be started.
pub open spec fn spawn_failed(version: Version) -> ResponseView {
    synthesized(STATUS_SERVICE_UNAVAILABLE, version, "503 - Failed to start service".spec_bytes())
}

/// Answer to a request that was cancelled while outstanding.
pub open spec fn canceled(version: Version) -> ResponseView {
    synthesized(STATUS_SERVICE_UNAVAILABLE, version, "Canceled Request".spec_bytes())
}

/// Answer to a request that was outstanding when its service was deleted.
pub open spec fn service_deleted(version: Version) -> ResponseView {
    synthesized(STATUS_NOT_FOUND, version, "Service Deleted".spec_bytes())
}

/// Answer to a request whose prefix names no registered service.
pub open spec fn unknown_service(version: Version) -> ResponseView {
    synthesized(STATUS_NOT_FOUND, version, "Unknown Service".spec_bytes())
}

/// Answer to a request whose path has no first segment to route by.
pub open spec fn missing_prefix(version: Version) -> ResponseView {
    synthesized(STATUS_NOT_FOUND, version, "Path did not include service prefix".spec_bytes())
}

/// Answer to a request that cannot be held as a [`Request`].
pub open spec fn bad_request(version: Version) -> ResponseView {
    synthesized(STATUS_BAD_REQUEST, version, "Malformed Request".spec_bytes())
}

/// Answer a listener gives in place of a reply it cannot pass on.
pub open spec fn bad_reply(version: Version) -> ResponseView {
    synthesized(STATUS_BAD_GATEWAY, version, "Service gave an invalid response".spec_bytes())
}

/// Answer a listener gives when what it waited on died.
pub open spec fn lost_service() -> ResponseView {
    synthesized(STATUS_SERVICE_UNAVAILABLE, Version::Http11, "Service was lost".spec_bytes())
}

/// Answer a listener gives when nothing arrived within its outer bound.
pub open spec fn outer_timeout() -> ResponseView {
    synthesized(
        STATUS_REQUEST_TIMEOUT,
        Version::Http11,
        "Outer 30s timeout has been hit. This should never happen.".spec_bytes(),
    )
}

impl Response {
    /// A response with the given status, version and body and no headers.
    pub fn synthesized(status: u16, version: Version, body: Vec<u8>) -> (response: Response)
        ensures
            response@ == synthesized(status, version, body@),
    {
        Response {
            metadata: ResponseMetadata { status, version, headers: empty_headers() },
            body,
        }
    }

    /// A header-less response whose body is the UTF-8 encoding of `text`.
    fn with_text(status: u16, version: Version, text: &str) -> (response: Response)
        ensures
            response@ == synthesized(status, version, text.spec_bytes()),
    {
        Response::synthesized(status, version, text.as_bytes_vec())
    }

    /// 504 for a request whose service did not reply before its deadline.
    pub fn timed_out() -> (response: Response)
        ensures
            response@ == timed_out(),
    {
        Response::with_text(STATUS_GATEWAY_TIMEOUT, Version::Http11, "Service timed out")
    }

    /// 503 for a request for which no worker could be started.
    pub fn spawn_failed(version: Version) -> (response: Response)
        ensures
            response@ == spawn_failed(version),
    {
        Response::with_text(STATUS_SERVICE_UNAVAILABLE, version, "503 - Failed to start service")
    }

    /// 503 for a request that was cancelled while outstanding.
    pub fn canceled(version: Version) -> (response: Response)
        ensures
            response@ == canceled(version),
    {
        Response::with_text(STATUS_SERVICE_UNAVAILABLE, version, "Canceled Request")
    }

    /// 404 for a request that was outstanding when its service was deleted.
    pub fn service_deleted(version: Version) -> (response: Response)
        ensures
            response@ == service_deleted(version),
    {
        Response::with_text(STATUS_NOT_FOUND, version, "Service Deleted")
    }

    /// 404 for a request whose prefix names no registered service.
    pub fn unknown_service(version: Version) -> (response: Response)
        ensures
            response@ == unknown_service(version),
    {
        Response::with_text(STATUS_NOT_FOUND, version, "Unknown Service")
    }

    /// 404 for a request whose path has no first segment to route by.
    pub fn missing_prefix(version: Version) -> (response: Response)
        ensures
            response@ == missing_prefix(version),
    {
        Response::with_text(STATUS_NOT_FOUND, version, "Path did not include service prefix")
    }

    /// 400 for a request that cannot be held as a [`Request`].
    pub fn bad_request(version: Version) -> (response: Response)
        ensures
            response@ == bad_request(version),
    {
        Response::with_text(STATUS_BAD_REQUEST, version, "Malformed Request")
    }

    /// 502 in place of a reply that cannot be passed on.
    pub fn bad_reply(version: Version) -> (response: Response)
        ensures
            response@ == bad_reply(version),
    {
        Response::with_text(STATUS_BAD_GATEWAY, version, "Service gave an invalid response")
    }

    /// 503 for a request whose wait ended with the death of what it waited on.
    pub fn lost_service() -> (response: Response)
        ensures
            response@ == lost_service(),
    {
        Response::with_text(STATUS_SERVICE_UNAVAILABLE, Version::Http11, "Service was lost")
    }

    /// Whether the response carries a status of three digits.
    pub fn has_valid_status(&self) -> (valid: bool)
        ensures
            valid == is_valid_status(self@.status),
    {
        100 <= self.metadata.status && self.metadata.status <= 999
    }

    /// 408 for a request that got no reply within the listener's outer bound.
    pub fn outer_timeout() -> (response: Response)
        ensures
            response@ == outer_timeout(),
    {
        Response::with_text(
            STATUS_REQUEST_TIMEOUT,
            Version::Http11,
            "Outer 30s timeout has been hit. This should never happen.",
        )
    }
}

} // verus!
