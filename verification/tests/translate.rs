use bytes::Bytes;
use object_writer::error::Error;
use object_writer::error::ErrorKind;
use object_writer::services::oss::error::classify_status;
use object_writer::services::oss::error::parse_error;
use object_writer::services::oss::error::OssError;

fn document() -> OssError {
    OssError {
        code: String::from("AccessDenied"),
        message: String::from(
            "Query-string authentication requires the Signature, Expires and OSSAccessKeyId parameters",
        ),
        request_id: String::from("1D842BC54255****"),
        host_id: String::from("oss-cn-hangzhou.aliyuncs.com"),
    }
}

fn translate(status: u16, body: &'static str) -> Error {
    parse_error(status, &Bytes::from(body), None, String::from("Parts"))
}

#[test]
fn error_new_is_permanent_and_bare() {
    let e = Error::new(ErrorKind::ObjectNotFound, "gone");
    assert_eq!(e.kind(), ErrorKind::ObjectNotFound);
    assert_eq!(e.message(), "gone");
    assert!(!e.is_temporary());
    assert!(e.context().is_empty());
}

#[test]
fn error_builders_add_what_they_say() {
    let e = Error::new(ErrorKind::Unexpected, "m")
        .with_context("first", String::from("1"))
        .set_temporary()
        .with_context("second", String::from("2"));
    assert_eq!(e.kind(), ErrorKind::Unexpected);
    assert_eq!(e.message(), "m");
    assert!(e.is_temporary());
    assert_eq!(e.context(), &vec![("first", String::from("1")), ("second", String::from("2"))]);
}

#[test]
fn status_table() {
    assert_eq!(classify_status(404), (ErrorKind::ObjectNotFound, false));
    assert_eq!(classify_status(403), (ErrorKind::ObjectPermissionDenied, false));
    assert_eq!(classify_status(500), (ErrorKind::Unexpected, true));
    assert_eq!(classify_status(502), (ErrorKind::Unexpected, true));
    assert_eq!(classify_status(503), (ErrorKind::Unexpected, true));
    assert_eq!(classify_status(504), (ErrorKind::Unexpected, true));
    assert_eq!(classify_status(501), (ErrorKind::Unexpected, false));
    assert_eq!(classify_status(400), (ErrorKind::Unexpected, false));
    assert_eq!(classify_status(200), (ErrorKind::Unexpected, false));
    assert_eq!(classify_status(0), (ErrorKind::Unexpected, false));
    assert_eq!(classify_status(999), (ErrorKind::Unexpected, false));
    assert_eq!(classify_status(u16::MAX), (ErrorKind::Unexpected, false));
}

#[test]
fn retry_goes_by_the_status_whatever_the_body() {
    for body in ["", "<Error><Code>X</Code></Error>", "not a document"] {
        assert!(translate(503, body).is_temporary());
        assert!(!translate(404, body).is_temporary());
        assert_eq!(translate(403, body).kind(), ErrorKind::ObjectPermissionDenied);
    }
    assert!(parse_error(503, &Bytes::new(), Some(document()), String::new()).is_temporary());
    assert!(!parse_error(404, &Bytes::new(), Some(document()), String::new()).is_temporary());
    assert_eq!(
        parse_error(403, &Bytes::new(), Some(document()), String::new()).kind(),
        ErrorKind::ObjectPermissionDenied
    );
}

#[test]
fn unknown_status_and_empty_body_still_give_an_error() {
    let e = translate(999, "");
    assert_eq!(e.kind(), ErrorKind::Unexpected);
    assert!(!e.is_temporary());
    assert_eq!(e.message(), "");
    assert_eq!(e.context(), &vec![("response", String::from("Parts"))]);
}

#[test]
fn body_without_document_is_the_message() {
    let e = translate(500, "upstream timed out");
    assert_eq!(e.message(), "upstream timed out");
    assert_eq!(e.kind(), ErrorKind::Unexpected);
    assert!(e.is_temporary());
}

#[test]
fn body_that_is_not_text_is_read_as_well_as_it_can_be() {
    let body = Bytes::from(vec![b'a', 0xff, b'b', 0xc3]);
    let e = parse_error(404, &body, None, String::new());
    assert_eq!(e.message(), "a\u{fffd}b\u{fffd}");
    let accented = Bytes::from(vec![0xc3, 0xa9]);
    assert_eq!(parse_error(404, &accented, None, String::new()).message(), "\u{e9}");
}

#[test]
fn document_is_shown_field_by_field() {
    let e = parse_error(403, &Bytes::from("ignored"), Some(document()), String::from("Parts"));
    assert_eq!(
        e.message(),
        "OssError { code: \"AccessDenied\", message: \"Query-string authentication requires the Signature, Expires and OSSAccessKeyId parameters\", request_id: \"1D842BC54255****\", host_id: \"oss-cn-hangzhou.aliyuncs.com\" }"
    );
    assert_eq!(e.kind(), ErrorKind::ObjectPermissionDenied);
    assert!(!e.is_temporary());
    assert_eq!(e.context(), &vec![("response", String::from("Parts"))]);
}

#[test]
fn render_agrees_with_debug() {
    let plain = document();
    assert_eq!(plain.render(), format!("{:?}", plain));
    let empty = OssError::default();
    assert_eq!(empty.render(), format!("{:?}", empty));
    assert_eq!(
        empty.render(),
        "OssError { code: \"\", message: \"\", request_id: \"\", host_id: \"\" }"
    );
    let awkward = OssError {
        code: String::from("a\"b"),
        message: String::from("line\nbreak\ttab \\ slash"),
        request_id: String::from("\u{e9}\u{1f600}\u{0}"),
        host_id: String::from("'single'"),
    };
    assert_eq!(awkward.render(), format!("{:?}", awkward));
}

#[test]
fn default_document_is_empty() {
    let d = OssError::default();
    assert_eq!(d.code, "");
    assert_eq!(d.message, "");
    assert_eq!(d.request_id, "");
    assert_eq!(d.host_id, "");
}
