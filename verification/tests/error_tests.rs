use tracing_examples::error::{u16_text, Error, ErrorKind};

#[test]
fn http_response_builds_http_kind() {
    let k = ErrorKind::http_response(404, None);
    assert_eq!(k, ErrorKind::Http { code: 404, message: None });
    let k = ErrorKind::http_response(400, Some(String::from("bad")));
    assert_eq!(k, ErrorKind::Http { code: 400, message: Some(String::from("bad")) });
}

#[test]
fn kind_text_renders_each_category() {
    assert_eq!(ErrorKind::Conversion.text(), "Conversion");
    assert_eq!(ErrorKind::Io.text(), "Io");
    assert_eq!(ErrorKind::Network.text(), "Network");
    assert_eq!(ErrorKind::Other.text(), "Other");
    assert_eq!(ErrorKind::http_response(404, None).text(), "HTTP 404");
    assert_eq!(
        ErrorKind::http_response(400, Some(String::from("oops"))).text(),
        "HTTP 400: oops"
    );
}

#[test]
fn u16_text_renders_decimal() {
    assert_eq!(u16_text(0), "0");
    assert_eq!(u16_text(7), "7");
    assert_eq!(u16_text(10), "10");
    assert_eq!(u16_text(404), "404");
    assert_eq!(u16_text(65535), "65535");
}

#[test]
fn with_message_keeps_kind_and_message() {
    let e = Error::with_message(ErrorKind::Io, String::from("disk gone"));
    assert_eq!(*e.kind(), ErrorKind::Io);
    assert_eq!(e.message(), "disk gone");
    assert!(e.cause().is_none());
}

#[test]
fn new_keeps_kind_and_exposes_cause() {
    let e = Error::new(ErrorKind::Network, String::from("connection reset"));
    assert_eq!(*e.kind(), ErrorKind::Network);
    assert_eq!(e.message(), "connection reset");
    assert_eq!(e.cause().map(|c| c.as_str()), Some("connection reset"));
}

#[test]
fn from_kind_renders_kind_text() {
    let e = Error::from(ErrorKind::http_response(404, None));
    assert_eq!(*e.kind(), ErrorKind::Http { code: 404, message: None });
    assert_eq!(e.message(), "HTTP 404");
    assert!(e.cause().is_none());
}
