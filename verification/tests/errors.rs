use hypertyper::HTTPError;

#[test]
fn request_message_carries_detail() {
    let e = HTTPError::Request(String::from("connection reset"));
    assert_eq!(
        e.message(),
        "Error while making or processing an HTTP request: connection reset"
    );
}

#[test]
fn serialization_message_carries_detail() {
    let e = HTTPError::Serialization(String::from("expected value at line 1"));
    assert_eq!(e.message(), "Error serializing POST body: expected value at line 1");
}

#[test]
fn http_message_renders_status_code_with_reason() {
    assert_eq!(HTTPError::Http(404).message(), "Request returned HTTP 404 Not Found");
    assert_eq!(HTTPError::Http(200).message(), "Request returned HTTP 200 OK");
    assert_eq!(HTTPError::Http(100).message(), "Request returned HTTP 100 Continue");
    assert_eq!(
        HTTPError::Http(500).message(),
        "Request returned HTTP 500 Internal Server Error"
    );
    assert_eq!(
        HTTPError::Http(0).message(),
        "Request returned HTTP 0 <unknown status code>"
    );
    assert_eq!(
        HTTPError::Http(65535).message(),
        "Request returned HTTP 65535 <unknown status code>"
    );
}

#[test]
fn content_type_messages_render() {
    assert_eq!(HTTPError::MissingContentType.message(), "Missing Content-Type header");
    let invalid = HTTPError::InvalidContentType(String::from("\u{fffd}"));
    assert_eq!(invalid.message(), "Invalid Content-Type header value: \u{fffd}");
    let unexpected = HTTPError::UnexpectedContentType(String::from("text/html"));
    assert_eq!(unexpected.message(), "Unexpected content type: text/html");
}
