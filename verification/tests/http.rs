use frenezulo::http::{Method, Request, RequestMetadata, Response, ResponseMetadata, Version};
use multimap::MultiMap;

fn sample_request() -> Request {
    let mut headers = MultiMap::new();
    headers.insert("accept".to_owned(), b"text/plain".to_vec());
    headers.insert("accept".to_owned(), b"text/html".to_vec());
    headers.insert("host".to_owned(), b"example.org".to_vec());
    Request {
        metadata: RequestMetadata {
            method: Method::Post,
            uri: "/echo/anything?x=1".to_owned(),
            version: Version::Http2,
            headers,
        },
        body: b"hi".to_vec(),
    }
}

#[test]
fn synthesized_response_has_given_parts_and_no_headers() {
    let response = Response::synthesized(418, Version::Http10, b"teapot".to_vec());
    assert_eq!(response.metadata.status, 418);
    assert_eq!(response.metadata.version, Version::Http10);
    assert!(response.metadata.headers.is_empty());
    assert_eq!(response.metadata.headers.len(), 0);
    assert_eq!(response.body, b"teapot".to_vec());
}

#[test]
fn timed_out_is_504_over_http11() {
    let response = Response::timed_out();
    assert_eq!(response.metadata.status, 504);
    assert_eq!(response.metadata.version, Version::Http11);
    assert!(response.metadata.headers.is_empty());
    assert_eq!(response.body, b"Service timed out".to_vec());
}

#[test]
fn spawn_failed_is_503_in_request_version() {
    let response = Response::spawn_failed(Version::Http3);
    assert_eq!(response.metadata.status, 503);
    assert_eq!(response.metadata.version, Version::Http3);
    assert!(response.metadata.headers.is_empty());
    assert_eq!(response.body, b"503 - Failed to start service".to_vec());
}

#[test]
fn canceled_is_503_in_request_version() {
    let response = Response::canceled(Version::Http10);
    assert_eq!(response.metadata.status, 503);
    assert_eq!(response.metadata.version, Version::Http10);
    assert!(response.metadata.headers.is_empty());
    assert_eq!(response.body, b"Canceled Request".to_vec());
}

#[test]
fn service_deleted_is_404_in_request_version() {
    let response = Response::service_deleted(Version::Http09);
    assert_eq!(response.metadata.status, 404);
    assert_eq!(response.metadata.version, Version::Http09);
    assert!(response.metadata.headers.is_empty());
    assert_eq!(response.body, b"Service Deleted".to_vec());
}

#[test]
fn unknown_service_is_404() {
    let response = Response::unknown_service(Version::Http11);
    assert_eq!(response.metadata.status, 404);
    assert_eq!(response.metadata.version, Version::Http11);
    assert!(response.metadata.headers.is_empty());
    assert_eq!(response.body, b"Unknown Service".to_vec());
}

#[test]
fn missing_prefix_is_404() {
    let response = Response::missing_prefix(Version::Http2);
    assert_eq!(response.metadata.status, 404);
    assert_eq!(response.metadata.version, Version::Http2);
    assert!(response.metadata.headers.is_empty());
    assert_eq!(response.body, b"Path did not include service prefix".to_vec());
}

#[test]
fn outer_timeout_is_408_over_http11() {
    let response = Response::outer_timeout();
    assert_eq!(response.metadata.status, 408);
    assert_eq!(response.metadata.version, Version::Http11);
    assert!(response.metadata.headers.is_empty());
    assert_eq!(
        response.body,
        b"Outer 30s timeout has been hit. This should never happen.".to_vec()
    );
}

#[test]
fn bad_request_is_400_in_request_version() {
    let response = Response::bad_request(Version::Http10);
    assert_eq!(response.metadata.status, 400);
    assert_eq!(response.metadata.version, Version::Http10);
    assert!(response.metadata.headers.is_empty());
    assert_eq!(response.body, b"Malformed Request".to_vec());
}

#[test]
fn bad_reply_is_502_in_given_version() {
    let response = Response::bad_reply(Version::Http3);
    assert_eq!(response.metadata.status, 502);
    assert_eq!(response.metadata.version, Version::Http3);
    assert!(response.metadata.headers.is_empty());
    assert_eq!(response.body, b"Service gave an invalid response".to_vec());
}

#[test]
fn lost_service_is_503_over_http11() {
    let response = Response::lost_service();
    assert_eq!(response.metadata.status, 503);
    assert_eq!(response.metadata.version, Version::Http11);
    assert!(response.metadata.headers.is_empty());
    assert_eq!(response.body, b"Service was lost".to_vec());
}

#[test]
fn status_of_three_digits_is_valid() {
    for (status, valid) in [(0, false), (99, false), (100, true), (200, true), (999, true), (1000, false), (65535, false)] {
        assert_eq!(Response::synthesized(status, Version::Http11, vec![]).has_valid_status(), valid);
    }
}

#[test]
fn status_constants_are_the_contracted_codes() {
    assert_eq!(frenezulo::http::STATUS_BAD_REQUEST, 400);
    assert_eq!(frenezulo::http::STATUS_BAD_GATEWAY, 502);
    assert_eq!(frenezulo::http::STATUS_OK, 200);
    assert_eq!(frenezulo::http::STATUS_NOT_FOUND, 404);
    assert_eq!(frenezulo::http::STATUS_REQUEST_TIMEOUT, 408);
    assert_eq!(frenezulo::http::STATUS_SERVICE_UNAVAILABLE, 503);
    assert_eq!(frenezulo::http::STATUS_GATEWAY_TIMEOUT, 504);
}

#[test]
fn cloned_request_equals_its_source() {
    let request = sample_request();
    let copy = request.clone();
    assert_eq!(copy, request);
    assert_eq!(copy.metadata.method, Method::Post);
    assert_eq!(copy.metadata.uri, "/echo/anything?x=1");
    assert_eq!(copy.metadata.version, Version::Http2);
    assert_eq!(copy.body, b"hi".to_vec());
    assert_eq!(
        copy.metadata.headers.get_vec("accept"),
        Some(&vec![b"text/plain".to_vec(), b"text/html".to_vec()])
    );
    assert_eq!(
        copy.metadata.headers.get_vec("host"),
        Some(&vec![b"example.org".to_vec()])
    );
    assert_eq!(copy.metadata.headers.len(), 2);
}

#[test]
fn cloned_request_is_independent_of_its_source() {
    let mut request = sample_request();
    let copy = request.clone();
    request.metadata.headers.insert("host".to_owned(), b"other".to_vec());
    request.body.push(b'!');
    assert_eq!(copy, sample_request());
    assert_ne!(copy, request);
}

#[test]
fn cloned_response_equals_its_source() {
    let mut headers = MultiMap::new();
    headers.insert("content-type".to_owned(), b"text/plain".to_vec());
    let response = Response {
        metadata: ResponseMetadata { status: 200, version: Version::Http11, headers },
        body: b"Hello World!".to_vec(),
    };
    let copy = response.clone();
    assert_eq!(copy, response);
    assert_eq!(
        copy.metadata.headers.get_vec("content-type"),
        Some(&vec![b"text/plain".to_vec()])
    );
}
