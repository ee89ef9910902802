use demo_server::reply::{add_error_header, empty_reply, json_serialize_error, handle_errors, hello_world, json_reply, raw_reply, text_reply, Reply};

fn reply(status: u16, content_type: Option<&str>, body: &str) -> Reply {
    Reply { status, content_type: content_type.map(String::from), body: body.to_string() }
}

#[test]
fn greeting_is_hello_world() {
    let r = hello_world();
    assert_eq!(r.status, 200);
    assert_eq!(r.content_type, None);
    assert_eq!(r.body, "Hello world!");
}

#[test]
fn error_header_replaces_the_content_type() {
    let r = add_error_header(reply(500, Some("text/html; charset=utf-8"), "InternalError"));
    assert_eq!(r.status, 500);
    assert_eq!(r.content_type.as_deref(), Some("Error"));
    assert_eq!(r.body, "InternalError");
}

#[test]
fn error_handlers_mark_server_errors_only() {
    let r = handle_errors(reply(500, None, "boom"));
    assert_eq!(r.content_type.as_deref(), Some("Error"));
    assert_eq!(r.body, "boom");
    let r = handle_errors(reply(400, Some("text/html; charset=utf-8"), "bad request"));
    assert_eq!(r.status, 400);
    assert_eq!(r.content_type.as_deref(), Some("text/html; charset=utf-8"));
    assert_eq!(r.body, "bad request");
    let r = handle_errors(reply(200, None, "Hello world!"));
    assert_eq!(r.content_type, None);
}

#[test]
fn error_handlers_twice_are_error_handlers_once() {
    for (status, ct) in [(500, None), (500, Some("application/json")), (408, Some("text/html; charset=utf-8")), (200, None)] {
        let once = handle_errors(reply(status, ct, "x"));
        let twice = handle_errors(reply(status, ct, "x"));
        let twice = handle_errors(twice);
        assert_eq!(once.status, twice.status);
        assert_eq!(once.content_type, twice.content_type);
        assert_eq!(once.body, twice.body);
    }
}

#[test]
fn result_replies() {
    let r = text_reply("Welcome".to_string());
    assert_eq!((r.status, r.content_type.as_deref(), r.body.as_str()), (200, Some("text/plain; charset=utf-8"), "Welcome"));
    let r = raw_reply("abc".to_string());
    assert_eq!((r.status, r.content_type.as_deref(), r.body.as_str()), (200, None, "abc"));
    let r = json_reply("{\"id\":20}".to_string());
    assert_eq!((r.status, r.content_type.as_deref(), r.body.as_str()), (200, Some("application/json"), "{\"id\":20}"));
    let r = empty_reply();
    assert_eq!((r.status, r.content_type.as_deref(), r.body.as_str()), (200, None, ""));
}

#[test]
fn serialisation_error_reply() {
    let r = json_serialize_error("bad key".to_string());
    assert_eq!((r.status, r.content_type.as_deref(), r.body.as_str()), (500, Some("text/plain; charset=utf-8"), "Json serialize error: bad key"));
    let r = handle_errors(r);
    assert_eq!(r.content_type.as_deref(), Some("Error"));
}
