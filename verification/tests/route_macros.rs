use demo_server::route_macros::{auto_config, body, has_actix_route, rendered_reply, wrapped_reply, BodyWrap, ModuleItem, ReturnShape};

fn attrs(names: &[Option<&str>]) -> Vec<Option<String>> {
    names.iter().map(|n| n.map(String::from)).collect()
}

fn function(name: &str, names: &[Option<&str>]) -> ModuleItem {
    ModuleItem::Function { name: name.to_string(), attributes: attrs(names) }
}

#[test]
fn route_attributes_are_the_four_verbs() {
    for verb in ["get", "post", "put", "delete"] {
        assert!(has_actix_route(&attrs(&[Some(verb)])));
    }
    assert!(!has_actix_route(&attrs(&[])));
    assert!(!has_actix_route(&attrs(&[Some("body"), Some("patch"), Some("Get"), None])));
    assert!(has_actix_route(&attrs(&[None, Some("body"), Some("delete")])));
}

#[test]
fn module_without_body_is_refused() {
    assert_eq!(auto_config(&None), Err("expected inline module".to_string()));
}

#[test]
fn module_registers_its_routes_in_order() {
    let items = vec![
        function("index", &[Some("get")]),
        ModuleItem::Other,
        function("helper", &[Some("inline")]),
        function("update", &[Some("post")]),
        function("index4", &[Some("get"), Some("body")]),
        function("remove", &[None, Some("delete")]),
    ];
    assert_eq!(
        auto_config(&Some(items)),
        Ok(vec!["index".to_string(), "update".to_string(), "index4".to_string(), "remove".to_string()])
    );
}

#[test]
fn module_without_routes_registers_nothing() {
    let items = vec![ModuleItem::Other, function("helper", &[])];
    assert_eq!(auto_config(&Some(items)), Ok(vec![]));
    assert_eq!(auto_config(&Some(vec![])), Ok(vec![]));
}

#[test]
fn body_kind_follows_the_result_type() {
    assert_eq!(body(&ReturnShape::Unit), BodyWrap::Empty);
    assert_eq!(body(&ReturnShape::Path("String".to_string())), BodyWrap::Text);
    assert_eq!(body(&ReturnShape::Path("str".to_string())), BodyWrap::Text);
    assert_eq!(body(&ReturnShape::Path("HashMap".to_string())), BodyWrap::Json);
    assert_eq!(body(&ReturnShape::Path("Strings".to_string())), BodyWrap::Json);
    assert_eq!(body(&ReturnShape::Other), BodyWrap::Json);
}

#[test]
fn wrapped_replies_follow_the_wrap() {
    let r = wrapped_reply(BodyWrap::Json, "{\"1\":2}".to_string());
    assert_eq!((r.status, r.content_type.as_deref(), r.body.as_str()), (200, Some("application/json"), "{\"1\":2}"));
    let r = wrapped_reply(BodyWrap::Text, "plain".to_string());
    assert_eq!((r.status, r.content_type.as_deref(), r.body.as_str()), (200, None, "plain"));
    let r = wrapped_reply(BodyWrap::Empty, "ignored".to_string());
    assert_eq!((r.status, r.content_type.as_deref(), r.body.as_str()), (200, None, ""));
}

#[test]
fn rendered_replies_follow_the_outcome() {
    let r = rendered_reply(BodyWrap::Json, Ok("{\"id\":20}".to_string()));
    assert_eq!((r.status, r.content_type.as_deref(), r.body.as_str()), (200, Some("application/json"), "{\"id\":20}"));
    let r = rendered_reply(BodyWrap::Text, Ok("hi".to_string()));
    assert_eq!((r.status, r.content_type.as_deref(), r.body.as_str()), (200, None, "hi"));
    let r = rendered_reply(BodyWrap::Json, Err("key must be a string".to_string()));
    assert_eq!(
        (r.status, r.content_type.as_deref(), r.body.as_str()),
        (500, Some("text/plain; charset=utf-8"), "Json serialize error: key must be a string")
    );
}

#[test]
fn serialisation_failure_matches_a_real_serde_error() {
    let mut bad = std::collections::HashMap::new();
    bad.insert(vec![1u8], 2u32);
    let message = serde_json::to_string(&bad).unwrap_err().to_string();
    let r = rendered_reply(body(&ReturnShape::Path("HashMap".to_string())), Err(message.clone()));
    assert_eq!(r.status, 500);
    assert_eq!(r.body, format!("Json serialize error: {message}"));
}
