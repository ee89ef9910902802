use demo_server::errors::{IError, MyError, UserError};
use demo_server::reply::handle_errors;

#[test]
fn my_error_status_codes() {
    assert_eq!(MyError::InternalError.status_code(), 500);
    assert_eq!(MyError::BadClientData.status_code(), 400);
    assert_eq!(MyError::TimeOut.status_code(), 408);
}

#[test]
fn my_error_texts() {
    assert_eq!(MyError::InternalError.to_string(), "InternalError");
    assert_eq!(MyError::BadClientData.to_string(), "bad request");
    assert_eq!(MyError::TimeOut.to_string(), "timeout");
}

#[test]
fn my_error_replies_are_html() {
    for e in [MyError::InternalError, MyError::BadClientData, MyError::TimeOut] {
        let r = e.error_response();
        assert_eq!(r.status, e.status_code());
        assert_eq!(r.content_type.as_deref(), Some("text/html; charset=utf-8"));
        assert_eq!(r.body, e.to_string());
    }
}

#[test]
fn user_error_reply() {
    let e = UserError::InternalError;
    assert_eq!(e.status_code(), 500);
    assert_eq!(e.to_string(), "An internal error has occurred.");
    let r = e.error_response();
    assert_eq!(r.status, 500);
    assert_eq!(r.content_type.as_deref(), Some("application/json"));
    assert_eq!(r.body, "An internal error has occurred.");
}

#[test]
fn named_error_reply() {
    let e = IError { name: "IError!".to_string() };
    assert_eq!(e.status_code(), 500);
    assert_eq!(e.to_string(), "IError :IError!");
    let r = e.error_response();
    assert_eq!(r.status, 500);
    assert_eq!(r.content_type.as_deref(), Some("text/plain; charset=utf-8"));
    assert_eq!(r.body, "IError :IError!");
}

#[test]
fn served_errors_after_the_error_handlers() {
    let r = handle_errors(MyError::InternalError.error_response());
    assert_eq!(r.content_type.as_deref(), Some("Error"));
    assert_eq!(r.body, "InternalError");
    let r = handle_errors(MyError::TimeOut.error_response());
    assert_eq!(r.status, 408);
    assert_eq!(r.content_type.as_deref(), Some("text/html; charset=utf-8"));
    let r = handle_errors(UserError::InternalError.error_response());
    assert_eq!(r.content_type.as_deref(), Some("Error"));
    assert_eq!(r.body, "An internal error has occurred.");
}
