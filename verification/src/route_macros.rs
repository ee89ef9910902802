//! The decisions of the service's attribute macros, taken on a plain
//! description of the code they are applied to: which functions are routes,
//! which of them a module registers, and how a handler's result becomes a
//! reply.

use vstd::prelude::*;
use crate::reply::{empty_reply, json_reply, json_serialize_error, raw_reply, Reply, ReplyView};

verus! {

/// Is `name` one of the route attributes `get`, `post`, `put`, `delete`?
pub open spec fn is_route_verb(name: Seq<char>) -> bool {
    name == "get"@ || name == "post"@ || name == "put"@ || name == "delete"@
}

/// Is the attribute path a single identifier that names a route?
pub open spec fn names_route(attribute: Option<String>) -> bool {
    attribute matches Some(n) && is_route_verb(n@)
}

/// Does one of the attributes, each given by its path where that path is a
/// single identifier (`None` otherwise), name a route?
pub open spec fn spec_has_route(attributes: Seq<Option<String>>) -> bool {
    exists|i: int| 0 <= i < attributes.len() && names_route(#[trigger] attributes[i])
}

fn is_route_name(name: &String) -> (b: bool)
    ensures
        b == is_route_verb(name@),
        b <==> (name@ == "get"@ || name@ == "post"@ || name@ == "put"@ || name@ == "delete"@),
{
    proof {
        lemma_route_verbs(name@);
    }
    let get = String::from_str("get");
    let post = String::from_str("post");
    let put = String::from_str("put");
    let delete = String::from_str("delete");
    *name == get || *name == post || *name == put || *name == delete
}

/// Exactly four words name a route: `get`, `post`, `put` and `delete`; so a
/// function carries a route attribute exactly when one of its attributes
/// is a single identifier that is one of those words.
pub proof fn lemma_route_verbs(name: Seq<char>)
    ensures
        is_route_verb(name) <==> (name == seq!['g', 'e', 't'] || name == seq!['p', 'o', 's', 't']
            || name == seq!['p', 'u', 't'] || name == seq!['d', 'e', 'l', 'e', 't', 'e']),
        forall|attributes: Seq<Option<String>>| #[trigger] spec_has_route(attributes) <==>
            exists|i: int| 0 <= i < attributes.len() && #[trigger] attributes[i] is Some && {
                let w = attributes[i]->0@;
                w == seq!['g', 'e', 't'] || w == seq!['p', 'o', 's', 't']
                    || w == seq!['p', 'u', 't'] || w == seq!['d', 'e', 'l', 'e', 't', 'e']
            },
{
    reveal_strlit("get");
    reveal_strlit("post");
    reveal_strlit("put");
    reveal_strlit("delete");
    assert("get"@ =~= seq!['g', 'e', 't']);
    assert("post"@ =~= seq!['p', 'o', 's', 't']);
    assert("put"@ =~= seq!['p', 'u', 't']);
    assert("delete"@ =~= seq!['d', 'e', 'l', 'e', 't', 'e']);
}

/// Whether a function carries one of the route attributes `#[get]`,
/// `#[post]`, `#[put]` or `#[delete]`.
pub fn has_actix_route(attributes: &Vec<Option<String>>) -> (b: bool)
    ensures
        b == spec_has_route(attributes@),
{
    let mut i: usize = 0;
    while i < attributes.len()
        invariant
            i <= attributes.len(),
            forall|j: int| 0 <= j < i ==> !names_route(#[trigger] attributes@[j]),
        decreases attributes.len() - i,
    {
        match &attributes[i] {
            Some(n) => {
                if is_route_name(n) {
                    return true;
                }
            },
            None => {},
        }
        i = i + 1;
    }
    false
}

/// An item of a module, as far as route registration looks at it.
pub enum ModuleItem {
    /// A function with its name and its attributes (each by its path where
    /// that path is a single identifier).
    Function { name: String, attributes: Vec<Option<String>> },
    /// Any other item.
    Other,
}

/// Is the item a function with a route attribute?
pub open spec fn is_routed(item: ModuleItem) -> bool {
    item matches ModuleItem::Function { name, attributes } && spec_has_route(attributes@)
}

/// The names of the routed functions among `items`, in their order.
pub open spec fn services(items: Seq<ModuleItem>) -> Seq<Seq<char>>
    decreases items.len(),
{
    if items.len() == 0 {
        Seq::empty()
    } else {
        let before = services(items.drop_last());
        match items.last() {
            ModuleItem::Function { name, attributes } => if spec_has_route(attributes@) {
                before.push(name@)
            } else {
                before
            },
            ModuleItem::Other => before,
        }
    }
}

/// The texts of a sequence of strings.
pub open spec fn texts(v: Seq<String>) -> Seq<Seq<char>> {
    v.map_values(|s: String| s@)
}

/// The error text for a module that is not written inline.
pub open spec fn not_inline_text() -> Seq<char> {
    "expected inline module"@
}

/// The services that a module registers in its generated `config`: every
/// function of the module that carries a route attribute, in order. A
/// module declared without a body (`mod name;`) is refused with the error
/// `expected inline module`.
pub fn auto_config(content: &Option<Vec<ModuleItem>>) -> (r: Result<Vec<String>, String>)
    ensures
        match content {
            None => r matches Err(e) && e@ == not_inline_text(),
            Some(items) => r matches Ok(names) && texts(names@) == services(items@),
        },
{
    match content {
        None => Err(String::from_str("expected inline module")),
        Some(items) => {
            let mut names: Vec<String> = Vec::new();
            let mut i: usize = 0;
            while i < items.len()
                invariant
                    i <= items.len(),
                    texts(names@) == services(items@.take(i as int)),
                decreases items.len() - i,
            {
                assert(items@.take(i + 1).drop_last() =~= items@.take(i as int));
                match &items[i] {
                    ModuleItem::Function { name, attributes } => {
                        if has_actix_route(attributes) {
                            let ghost before = names@;
                            names.push(name.clone());
                            assert(texts(names@) =~= texts(before).push(name@));
                        }
                    },
                    ModuleItem::Other => {},
                }
                i = i + 1;
            }
            assert(items@.take(items.len() as int) =~= items@);
            Ok(names)
        },
    }
}

/// Is `name` the name of a function among `items` that carries a route
/// attribute?
pub open spec fn is_route_name_in(items: Seq<ModuleItem>, name: Seq<char>) -> bool {
    exists|j: int| 0 <= j < items.len() && #[trigger] is_routed(items[j]) && items[j]->Function_name@ == name
}

/// Route registration finds every route and nothing else: the name of each
/// function that carries a route attribute is registered, and each
/// registered name is that of such a function.
pub proof fn lemma_services_are_the_routes(items: Seq<ModuleItem>)
    ensures
        forall|j: int| 0 <= j < items.len() && #[trigger] is_routed(items[j]) ==>
            services(items).contains(items[j]->Function_name@),
        forall|k: int| 0 <= k < services(items).len() ==>
            is_route_name_in(items, #[trigger] services(items)[k]),
    decreases items.len(),
{
    if items.len() > 0 {
        let rest = items.drop_last();
        lemma_services_are_the_routes(rest);
        let before = services(rest);
        let last = items.len() - 1;
        assert forall|j: int| 0 <= j < items.len() && #[trigger] is_routed(items[j]) implies
            services(items).contains(items[j]->Function_name@) by {
            if j < last {
                assert(rest[j] == items[j]);
                let k = choose|k: int| 0 <= k < before.len() && before[k] == items[j]->Function_name@;
                assert(services(items)[k] == before[k]);
            } else {
                assert(services(items)[services(items).len() - 1] == items[j]->Function_name@);
            }
        }
        assert forall|k: int| 0 <= k < services(items).len() implies
            is_route_name_in(items, #[trigger] services(items)[k]) by {
            if k < before.len() {
                assert(services(items)[k] == before[k]);
                assert(is_route_name_in(rest, before[k]));
                let j = choose|j: int| 0 <= j < rest.len() && #[trigger] is_routed(rest[j])
                    && rest[j]->Function_name@ == before[k];
                assert(rest[j] == items[j]);
                assert(is_routed(items[j]));
            } else {
                assert(is_routed(items[last]));
                assert(services(items)[k] == items[last]->Function_name@);
            }
        }
    }
}

/// The result type of a handler, as far as `#[body]` looks at it.
pub enum ReturnShape {
    /// No result type.
    Unit,
    /// A type path, by its last segment.
    Path(String),
    /// Any other type.
    Other,
}

/// How `#[body]` turns a handler's result into a reply; every reply has
/// status `200`.
#[derive(Debug, Clone, Copy, PartialEq, Eq, Structural)]
pub enum BodyWrap {
    /// The result is the reply body as it is.
    Text,
    /// The result is serialised to JSON.
    Json,
    /// There is no result; the reply is empty.
    Empty,
}

/// How `#[body]` wraps a result of the given type.
pub open spec fn spec_body(output: ReturnShape) -> BodyWrap {
    match output {
        ReturnShape::Unit => BodyWrap::Empty,
        ReturnShape::Path(last) => if last@ == "String"@ || last@ == "str"@ {
            BodyWrap::Text
        } else {
            BodyWrap::Json
        },
        ReturnShape::Other => BodyWrap::Json,
    }
}

/// A `String` or `str` result is sent as text, any other result as JSON,
/// and a handler without a result answers with an empty body.
pub fn body(output: &ReturnShape) -> (w: BodyWrap)
    ensures
        w == spec_body(*output),
{
    match output {
        ReturnShape::Unit => BodyWrap::Empty,
        ReturnShape::Path(last) => {
            let string = String::from_str("String");
            let str_name = String::from_str("str");
            if *last == string || *last == str_name {
                BodyWrap::Text
            } else {
                BodyWrap::Json
            }
        },
        ReturnShape::Other => BodyWrap::Json,
    }
}

/// The reply for a result wrapped as `wrap` and rendered as `text`.
pub open spec fn spec_wrapped(wrap: BodyWrap, text: Seq<char>) -> ReplyView {
    match wrap {
        BodyWrap::Text => ReplyView { status: 200, content_type: None, body: text },
        BodyWrap::Json => ReplyView {
            status: 200,
            content_type: Some(crate::reply::application_json()),
            body: text,
        },
        BodyWrap::Empty => ReplyView { status: 200, content_type: None, body: Seq::<char>::empty() },
    }
}

/// The reply for a result wrapped as `wrap`, given the outcome of rendering
/// it: the text, or the message of a failed JSON serialisation.
pub open spec fn spec_rendered(wrap: BodyWrap, rendered: Result<Seq<char>, Seq<char>>) -> ReplyView {
    match rendered {
        Ok(text) => spec_wrapped(wrap, text),
        Err(message) => crate::reply::spec_serialize_error(message),
    }
}

/// The reply of a handler under `#[body]`, given how its result is wrapped
/// and the result rendered as text (serialised to JSON where it is wrapped
/// as JSON): the text as it is, JSON, or an empty reply; all with status
/// `200`.
pub fn wrapped_reply(wrap: BodyWrap, rendered: String) -> (r: Reply)
    ensures
        r@ == spec_wrapped(wrap, rendered@),
{
    match wrap {
        BodyWrap::Text => raw_reply(rendered),
        BodyWrap::Json => json_reply(rendered),
        BodyWrap::Empty => empty_reply(),
    }
}

/// The reply of a handler under `#[body]`, given how its result is wrapped
/// and the outcome of rendering it (text, or serialisation to JSON where it
/// is wrapped as JSON): a rendered result answers as [`wrapped_reply`]
/// does; a result that failed to serialise answers `500` with the text
/// `Json serialize error: ` and the serialiser's message.
pub fn rendered_reply(wrap: BodyWrap, rendered: Result<String, String>) -> (r: Reply)
    ensures
        r@ == spec_rendered(wrap, match rendered {
            Ok(text) => Ok(text@),
            Err(message) => Err(message@),
        }),
{
    match rendered {
        Ok(text) => wrapped_reply(wrap, text),
        Err(message) => json_serialize_error(message),
    }
}

/// What `#[body]` answers, for every result type and every outcome of
/// rendering the result: a rendered `String` or `str` is the body as it is,
/// with no content type of its own; any other rendered result is sent as
/// `application/json`; a handler without a result answers an empty body;
/// all of these with status `200`. A result that failed to serialise
/// answers `500`, plain text, `Json serialize error: ` and the message.
pub proof fn lemma_body_replies(output: ReturnShape, rendered: Result<Seq<char>, Seq<char>>)
    ensures
        ({
            let r = spec_rendered(spec_body(output), rendered);
            match rendered {
                Ok(text) => {
                    &&& r.status == 200
                    &&& (output matches ReturnShape::Path(last) && (last@ == "String"@ || last@ == "str"@))
                        ==> r.content_type is None && r.body == text
                    &&& (output matches ReturnShape::Path(last) && !(last@ == "String"@ || last@ == "str"@))
                        ==> r.content_type == Some(crate::reply::application_json()) && r.body == text
                    &&& output is Other ==> r.content_type == Some(crate::reply::application_json())
                        && r.body == text
                    &&& output is Unit ==> r.content_type is None && r.body == Seq::<char>::empty()
                },
                Err(message) => {
                    &&& r.status == 500
                    &&& r.content_type == Some(crate::reply::text_plain())
                    &&& r.body == "Json serialize error: "@ + message
                },
            }
        }),
{
}

} // verus!
