//! From a failed response of the service to a normalized error.

use bytes::Bytes;
use vstd::prelude::*;
use vstd::utf8::decode_utf8;
use vstd::utf8::valid_utf8;

use crate::buffer::as_slice;
use crate::buffer::contents;
use crate::error::Error;
use crate::error::ErrorKind;
use crate::error::ErrorView;
use crate::text::debug_quote;
use crate::text::debug_quoted;
use crate::text::lossy_text;
use crate::text::utf8_lossy;

verus! {

/// The error document that the service sends as the body of a failed response.
/// A field that the document lacks is empty.
#[derive(Clone, Debug, PartialEq, Eq)]
pub struct OssError {
    pub code: String,
    pub message: String,
    pub request_id: String,
    pub host_id: String,
}

impl Default for OssError {
    fn default() -> (document: OssError)
        ensures
            document.code@ == Seq::<char>::empty(),
            document.message@ == Seq::<char>::empty(),
            document.request_id@ == Seq::<char>::empty(),
            document.host_id@ == Seq::<char>::empty(),
    {
        OssError {
            code: String::new(),
            message: String::new(),
            request_id: String::new(),
            host_id: String::new(),
        }
    }
}

/// The kind and the retry verdict that go with a status code. Both depend on the
/// status alone.
pub open spec fn status_class(status: u16) -> (ErrorKind, bool) {
    if status == 404 {
        (ErrorKind::ObjectNotFound, false)
    } else if status == 403 {
        (ErrorKind::ObjectPermissionDenied, false)
    } else if status == 500 || status == 502 || status == 503 || status == 504 {
        (ErrorKind::Unexpected, true)
    } else {
        (ErrorKind::Unexpected, false)
    }
}

/// The kind and the retry verdict that go with a status code.
pub fn classify_status(status: u16) -> (class: (ErrorKind, bool))
    ensures
        class == status_class(status),
{
    match status {
        404 => (ErrorKind::ObjectNotFound, false),
        403 => (ErrorKind::ObjectPermissionDenied, false),
        500 | 502 | 503 | 504 => (ErrorKind::Unexpected, true),
        _ => (ErrorKind::Unexpected, false),
    }
}

/// How a document is shown in a message: the four fields by name, each value as
/// `debug_quoted` shows it.
pub open spec fn rendered(document: OssError) -> Seq<char> {
    "OssError { code: "@ + debug_quoted(document.code@) + ", message: "@ + debug_quoted(
        document.message@,
    ) + ", request_id: "@ + debug_quoted(document.request_id@) + ", host_id: "@ + debug_quoted(
        document.host_id@,
    ) + " }"@
}

/// The message of the error: the document where the body held one, else the
/// body itself, read as text as well as it can be.
pub open spec fn error_message(body: Seq<u8>, document: Option<OssError>) -> Seq<char> {
    match document {
        Some(d) => rendered(d),
        None => utf8_lossy(body),
    }
}

/// Exactly the four server-side failures that may pass are worth a retry.
/// The kind is no guide to that: an `Unexpected` error may be worth a retry
/// or not.
pub proof fn lemma_status_class(status: u16)
    ensures
        status_class(status).1 <==> (status == 500 || status == 502 || status == 503 || status
            == 504),
        status_class(status).0 == ErrorKind::ObjectNotFound <==> status == 404,
        status_class(status).0 == ErrorKind::ObjectPermissionDenied <==> status == 403,
        status_class(status).1 ==> status_class(status).0 == ErrorKind::Unexpected,
{
}

/// Without a document the message is the body read as text, whatever the body
/// holds; with one, it is the document as it is shown.
pub proof fn lemma_message_source(body: Seq<u8>, document: OssError)
    ensures
        error_message(body, None) == utf8_lossy(body),
        error_message(body, Some(document)) == rendered(document),
{
}

impl OssError {
    /// The document as it is shown in a message.
    pub fn render(&self) -> (text: String)
        ensures
            text@ == rendered(*self),
    {
        let mut text = String::from_str("OssError { code: ");
        text.append(debug_quote(self.code.as_str()).as_str());
        text.append(", message: ");
        text.append(debug_quote(self.message.as_str()).as_str());
        text.append(", request_id: ");
        text.append(debug_quote(self.request_id.as_str()).as_str());
        text.append(", host_id: ");
        text.append(debug_quote(self.host_id.as_str()).as_str());
        text.append(" }");
        text
    }
}

/// The error that a failed response stands for.
///
/// `status` is the status code of the response and `body` its body; `document` is
/// the error document that the body held, if it held one; `response` shows the
/// status line and the headers, and goes into the context under the key
/// `response`. There is an error for every response, whatever it holds.
pub fn parse_error(status: u16, body: &Bytes, document: Option<OssError>, response: String) -> (e:
    Error)
    ensures
        e@ == (ErrorView {
            kind: status_class(status).0,
            message: error_message(contents(*body), document),
            temporary: status_class(status).1,
            context: seq![("response"@, response@)],
        }),
        document is None && valid_utf8(contents(*body)) ==> e@.message == decode_utf8(
            contents(*body),
        ),
{
    let (kind, retryable) = classify_status(status);
    let message = match &document {
        Some(d) => d.render(),
        None => lossy_text(as_slice(body)),
    };
    let mut err = Error::new(kind, message.as_str()).with_context("response", response);
    if retryable {
        err = err.set_temporary();
    }
    assert(err@.context =~= seq![("response"@, response@)]);
    err
}

} // verus!
