//! The parts of an HTTP reply that the service decides: status, content
//! type and body text. Sending it is left to the server.

use vstd::prelude::*;

verus! {

/// A reply as the service composes it.
pub struct Reply {
    pub status: u16,
    /// The `Content-Type` header, if the reply sets one.
    pub content_type: Option<String>,
    pub body: String,
}

/// The mathematical value of a [`Reply`].
pub struct ReplyView {
    pub status: u16,
    pub content_type: Option<Seq<char>>,
    pub body: Seq<char>,
}

pub open spec fn opt_text(s: Option<String>) -> Option<Seq<char>> {
    match s {
        Some(t) => Some(t@),
        None => None,
    }
}

impl View for Reply {
    type V = ReplyView;

    open spec fn view(&self) -> ReplyView {
        ReplyView { status: self.status, content_type: opt_text(self.content_type), body: self.body@ }
    }
}

/// `200 OK`.
pub const STATUS_OK: u16 = 200;

/// `400 Bad Request`.
pub const STATUS_BAD_REQUEST: u16 = 400;

/// `408 Request Timeout`.
pub const STATUS_REQUEST_TIMEOUT: u16 = 408;

/// `500 Internal Server Error`.
pub const STATUS_INTERNAL_SERVER_ERROR: u16 = 500;

/// `text/plain; charset=utf-8`, the type of plain text replies.
pub open spec fn text_plain() -> Seq<char> {
    "text/plain; charset=utf-8"@
}

/// `text/html; charset=utf-8`.
pub open spec fn text_html() -> Seq<char> {
    "text/html; charset=utf-8"@
}

/// `application/json`.
pub open spec fn application_json() -> Seq<char> {
    "application/json"@
}

/// The content type that the error handler puts on server errors.
pub open spec fn error_marker() -> Seq<char> {
    "Error"@
}

pub fn text_plain_string() -> (s: String)
    ensures
        s@ == text_plain(),
{
    String::from_str("text/plain; charset=utf-8")
}

pub fn text_html_string() -> (s: String)
    ensures
        s@ == text_html(),
{
    String::from_str("text/html; charset=utf-8")
}

pub fn application_json_string() -> (s: String)
    ensures
        s@ == application_json(),
{
    String::from_str("application/json")
}

/// The body of the plain greeting routes.
pub open spec fn hello_text() -> Seq<char> {
    "Hello world!"@
}

/// The greeting that `/`, `/update` and the other plain routes answer: `200`
/// with the body `Hello world!` and no content type of its own.
pub fn hello_world() -> (r: Reply)
    ensures
        r@ == (ReplyView { status: 200, content_type: None, body: hello_text() }),
{
    Reply { status: STATUS_OK, content_type: None, body: String::from_str("Hello world!") }
}

/// A text result as a handler returns it: `200`, plain text.
pub fn text_reply(text: String) -> (r: Reply)
    ensures
        r@ == (ReplyView { status: 200, content_type: Some(text_plain()), body: text@ }),
{
    Reply { status: STATUS_OK, content_type: Some(text_plain_string()), body: text }
}

/// A body given as it is: `200`, no content type of its own.
pub fn raw_reply(body: String) -> (r: Reply)
    ensures
        r@ == (ReplyView { status: 200, content_type: None, body: body@ }),
{
    Reply { status: STATUS_OK, content_type: None, body }
}

/// A value already serialised to JSON: `200`, `application/json`.
pub fn json_reply(json: String) -> (r: Reply)
    ensures
        r@ == (ReplyView { status: 200, content_type: Some(application_json()), body: json@ }),
{
    Reply { status: STATUS_OK, content_type: Some(application_json_string()), body: json }
}

/// The reply to a value that failed to serialise to JSON: `500`, plain
/// text, `Json serialize error: ` followed by the serialiser's message.
pub open spec fn spec_serialize_error(message: Seq<char>) -> ReplyView {
    ReplyView { status: 500, content_type: Some(text_plain()), body: "Json serialize error: "@ + message }
}

/// The reply to a value that failed to serialise to JSON, given the
/// serialiser's message.
pub fn json_serialize_error(message: String) -> (r: Reply)
    ensures
        r@ == spec_serialize_error(message@),
{
    let mut body = String::from_str("Json serialize error: ");
    body.append(message.as_str());
    Reply { status: STATUS_INTERNAL_SERVER_ERROR, content_type: Some(text_plain_string()), body }
}

/// An empty `200` reply.
pub fn empty_reply() -> (r: Reply)
    ensures
        r@ == (ReplyView { status: 200, content_type: None, body: Seq::<char>::empty() }),
{
    Reply { status: STATUS_OK, content_type: None, body: String::new() }
}

/// `reply` with its content type replaced by `Error`.
pub open spec fn marked(reply: ReplyView) -> ReplyView {
    ReplyView { status: reply.status, content_type: Some(error_marker()), body: reply.body }
}

/// What the error-handler middleware makes of a reply: a `500` reply gets
/// the content type `Error`; any other reply passes unchanged.
pub open spec fn after_error_handlers(reply: ReplyView) -> ReplyView {
    if reply.status == 500 {
        marked(reply)
    } else {
        reply
    }
}

/// Sets the `Content-Type` of a reply to `Error`, keeping its status and body.
pub fn add_error_header(reply: Reply) -> (r: Reply)
    ensures
        r@ == marked(reply@),
{
    Reply { status: reply.status, content_type: Some(String::from_str("Error")), body: reply.body }
}

/// The error-handler middleware: [`add_error_header`] on `500` replies only.
pub fn handle_errors(reply: Reply) -> (r: Reply)
    ensures
        r@ == after_error_handlers(reply@),
{
    if reply.status == STATUS_INTERNAL_SERVER_ERROR {
        add_error_header(reply)
    } else {
        reply
    }
}

/// The error handlers never change a status or a body, leave every reply
/// that is not a `500` as it is, and passing a reply through them twice
/// gives what passing it once gives.
pub proof fn lemma_error_handlers(reply: ReplyView)
    ensures
        after_error_handlers(reply).status == reply.status,
        after_error_handlers(reply).body == reply.body,
        reply.status != 500 ==> after_error_handlers(reply) == reply,
        reply.status == 500 ==> after_error_handlers(reply).content_type == Some(error_marker()),
        after_error_handlers(after_error_handlers(reply)) == after_error_handlers(reply),
{
}

} // verus!
