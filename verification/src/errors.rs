//! The service's error types: for each, its status code, its text and the
//! reply it turns into.

use vstd::prelude::*;
use crate::reply::{
    application_json_string, text_html_string, text_plain_string, Reply, ReplyView,
    STATUS_BAD_REQUEST, STATUS_INTERNAL_SERVER_ERROR, STATUS_REQUEST_TIMEOUT,
};

verus! {

/// Errors of the general kind: an internal failure, bad client data, a
/// timeout.
#[derive(Debug, Clone, Copy, PartialEq, Eq, Structural)]
pub enum MyError {
    InternalError,
    BadClientData,
    TimeOut,
}

impl MyError {
    /// The status code that each error answers with.
    pub open spec fn spec_status(&self) -> u16 {
        match self {
            MyError::InternalError => 500,
            MyError::BadClientData => 400,
            MyError::TimeOut => 408,
        }
    }

    /// The text that each error displays.
    pub open spec fn spec_text(&self) -> Seq<char> {
        match self {
            MyError::InternalError => "InternalError"@,
            MyError::BadClientData => "bad request"@,
            MyError::TimeOut => "timeout"@,
        }
    }

    /// The reply of each error: its status code, an HTML content type, and
    /// its text as the body.
    pub open spec fn spec_reply(&self) -> ReplyView {
        ReplyView {
            status: self.spec_status(),
            content_type: Some(crate::reply::text_html()),
            body: self.spec_text(),
        }
    }

    /// `500` for an internal error, `400` for bad client data, `408` for a
    /// timeout.
    pub fn status_code(&self) -> (code: u16)
        ensures
            code == self.spec_status(),
    {
        match self {
            MyError::InternalError => STATUS_INTERNAL_SERVER_ERROR,
            MyError::BadClientData => STATUS_BAD_REQUEST,
            MyError::TimeOut => STATUS_REQUEST_TIMEOUT,
        }
    }

    /// The displayed text: `InternalError`, `bad request` or `timeout`.
    pub fn to_string(&self) -> (s: String)
        ensures
            s@ == self.spec_text(),
    {
        match self {
            MyError::InternalError => String::from_str("InternalError"),
            MyError::BadClientData => String::from_str("bad request"),
            MyError::TimeOut => String::from_str("timeout"),
        }
    }

    /// The error as a reply: its status code, an HTML content type, and its
    /// text as the body.
    pub fn error_response(&self) -> (r: Reply)
        ensures
            r@ == self.spec_reply(),
    {
        Reply {
            status: self.status_code(),
            content_type: Some(text_html_string()),
            body: self.to_string(),
        }
    }
}

/// Errors reported to users of the service.
#[derive(Debug, Clone, Copy, PartialEq, Eq, Structural)]
pub enum UserError {
    InternalError,
}

impl UserError {
    pub open spec fn spec_status(&self) -> u16 {
        match self {
            UserError::InternalError => 500,
        }
    }

    pub open spec fn spec_text(&self) -> Seq<char> {
        match self {
            UserError::InternalError => "An internal error has occurred."@,
        }
    }

    /// The reply of the error: its status code, a JSON content type, and its
    /// text as the body.
    pub open spec fn spec_reply(&self) -> ReplyView {
        ReplyView {
            status: self.spec_status(),
            content_type: Some(crate::reply::application_json()),
            body: self.spec_text(),
        }
    }

    /// `500` for an internal error.
    pub fn status_code(&self) -> (code: u16)
        ensures
            code == self.spec_status(),
    {
        match self {
            UserError::InternalError => STATUS_INTERNAL_SERVER_ERROR,
        }
    }

    /// The displayed text: `An internal error has occurred.`
    pub fn to_string(&self) -> (s: String)
        ensures
            s@ == self.spec_text(),
    {
        match self {
            UserError::InternalError => String::from_str("An internal error has occurred."),
        }
    }

    /// The error as a reply: its status code, a JSON content type, and its
    /// text as the body.
    pub fn error_response(&self) -> (r: Reply)
        ensures
            r@ == self.spec_reply(),
    {
        Reply {
            status: self.status_code(),
            content_type: Some(application_json_string()),
            body: self.to_string(),
        }
    }
}

/// The text of a named error holds the whole name: `IError :` (8
/// characters) and then every character of the name, in order.
pub proof fn lemma_ierror_text(e: &IError)
    ensures
        e.spec_text().len() == 8 + e.name@.len(),
        e.spec_text().subrange(0, 8) == seq!['I', 'E', 'r', 'r', 'o', 'r', ' ', ':'],
        e.spec_text().subrange(8, e.spec_text().len() as int) == e.name@,
        forall|i: int| 0 <= i < e.name@.len() ==> #[trigger] e.spec_text()[8 + i] == e.name@[i],
{
    reveal_strlit("IError :");
    assert(e.spec_text().subrange(0, 8) =~= seq!['I', 'E', 'r', 'r', 'o', 'r', ' ', ':']);
    assert(e.spec_text().subrange(8, e.spec_text().len() as int) =~= e.name@);
}

/// An error that names what failed; it answers with the default of an
/// error reply: status `500` and its text as plain text.
pub struct IError {
    pub name: String,
}

impl IError {
    /// `IError :` followed by the name.
    pub open spec fn spec_text(&self) -> Seq<char> {
        "IError :"@ + self.name@
    }

    /// The reply of the error: `500`, plain text, its text as the body.
    pub open spec fn spec_reply(&self) -> ReplyView {
        ReplyView { status: 500, content_type: Some(crate::reply::text_plain()), body: self.spec_text() }
    }

    /// Always `500`.
    pub fn status_code(&self) -> (code: u16)
        ensures
            code == 500,
    {
        STATUS_INTERNAL_SERVER_ERROR
    }

    /// The displayed text: `IError :` followed by the name.
    pub fn to_string(&self) -> (s: String)
        ensures
            s@ == self.spec_text(),
            s@.len() == 8 + self.name@.len(),
            s@.subrange(0, 8) == "IError :"@,
            s@.subrange(8, s@.len() as int) == self.name@,
    {
        proof {
            lemma_ierror_text(self);
        }
        let mut s = String::from_str("IError :");
        s.append(self.name.as_str());
        s
    }

    /// The error as a reply: `500`, plain text, its text as the body.
    pub fn error_response(&self) -> (r: Reply)
        ensures
            r@ == self.spec_reply(),
    {
        Reply {
            status: self.status_code(),
            content_type: Some(text_plain_string()),
            body: self.to_string(),
        }
    }
}

/// How the server sends the errors: every error keeps its status and its
/// text; the error handlers give the `500` errors (an internal error of
/// either kind, and every named error) the content type `Error`, while bad
/// client data and timeouts keep their HTML content type.
pub proof fn lemma_served_errors(e: MyError, u: UserError, i: IError)
    ensures
        crate::reply::after_error_handlers(e.spec_reply()).status == e.spec_status(),
        crate::reply::after_error_handlers(e.spec_reply()).body == e.spec_text(),
        crate::reply::after_error_handlers(e.spec_reply()).content_type == if e == MyError::InternalError {
            Some(crate::reply::error_marker())
        } else {
            Some(crate::reply::text_html())
        },
        crate::reply::after_error_handlers(u.spec_reply()) == crate::reply::marked(u.spec_reply()),
        crate::reply::after_error_handlers(i.spec_reply()) == crate::reply::marked(i.spec_reply()),
{
}

} // verus!
