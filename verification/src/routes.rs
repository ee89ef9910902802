//! What the routes of the service answer, apart from `/index5/{id}`.

use vstd::prelude::*;
use std::collections::HashMap;
use crate::errors::{IError, MyError, UserError};
use crate::text::{parse_i32, push_i32};

verus! {

broadcast use vstd::std_specs::hash::group_hash_axioms;

/// The greeting of `/update3`: `Welcome {name}, user_id {user_id}!`.
pub open spec fn welcome_text(name: Seq<char>, user_id: i32) -> Seq<char> {
    "Welcome "@ + name + ", user_id "@ + crate::text::decimal_i32(user_id) + "!"@
}

/// The greeting holds the whole name and the whole number: it is
/// `Welcome ` (8 characters), then every character of the name in order,
/// then `, user_id ` (10 characters), then the decimal text of the number,
/// which parses back to that number, then `!`.
pub proof fn lemma_welcome_greets_by_name_and_number(name: Seq<char>, user_id: i32)
    ensures
        ({
            let t = welcome_text(name, user_id);
            let n = name.len() as int;
            &&& t.len() == 8 + n + 10 + crate::text::decimal_i32(user_id).len() + 1
            &&& t.subrange(0, 8) == seq!['W', 'e', 'l', 'c', 'o', 'm', 'e', ' ']
            &&& t.subrange(8, 8 + n) == name
            &&& forall|i: int| 0 <= i < n ==> #[trigger] t[8 + i] == name[i]
            &&& t.subrange(8 + n, 18 + n) == seq![',', ' ', 'u', 's', 'e', 'r', '_', 'i', 'd', ' ']
            &&& crate::text::spec_parse_i32(t.subrange(18 + n, t.len() - 1)) == Some(user_id)
            &&& t[t.len() - 1] == '!'
        }),
{
    reveal_strlit("Welcome ");
    reveal_strlit(", user_id ");
    reveal_strlit("!");
    let t = welcome_text(name, user_id);
    let n = name.len() as int;
    let d = crate::text::decimal_i32(user_id);
    assert(t.subrange(0, 8) =~= seq!['W', 'e', 'l', 'c', 'o', 'm', 'e', ' ']);
    assert(t.subrange(8, 8 + n) =~= name);
    assert(t.subrange(8 + n, 18 + n) =~= seq![',', ' ', 'u', 's', 'e', 'r', '_', 'i', 'd', ' ']);
    assert(t.subrange(18 + n, t.len() - 1) =~= d);
    crate::text::lemma_parse_display_roundtrip(user_id);
}

/// `Welcome {name}, user_id {user_id}!`, the number in decimal.
pub fn welcome(name: &str, user_id: i32) -> (s: String)
    ensures
        s@ == welcome_text(name@, user_id),
        s@.len() == 8 + name@.len() + 10 + crate::text::decimal_i32(user_id).len() + 1,
        s@.subrange(8, 8 + name@.len() as int) == name@,
        crate::text::spec_parse_i32(s@.subrange(18 + name@.len() as int, s@.len() - 1)) == Some(user_id),
{
    let mut s = String::from_str("Welcome ");
    s.append(name);
    s.append(", user_id ");
    push_i32(&mut s, user_id);
    s.append("!");
    proof {
        lemma_welcome_greets_by_name_and_number(name@, user_id);
    }
    s
}

/// `/update3`: greets the `friend` path parameter by name and the
/// `user_id` parameter by its number. The route panics where `friend` is
/// missing or `user_id` is not an `i32`; those inputs are excluded here.
pub fn update3(friend: Option<&str>, user_id: &str) -> (s: String)
    requires
        friend is Some,
        crate::text::spec_parse_i32(user_id@) is Some,
    ensures
        s@ == welcome_text(friend->0@, crate::text::spec_parse_i32(user_id@)->0),
{
    let name: &str = match friend {
        Some(n) => n,
        None => "",
    };
    let id: i32 = match parse_i32(user_id) {
        Some(v) => v,
        None => 0,
    };
    welcome(name, id)
}

/// `/update7`: fails with the error named `IError!`.
pub fn update7() -> (r: Result<&'static str, IError>)
    ensures
        r matches Err(e) && e.name@ == "IError!"@,
{
    Err(IError { name: String::from_str("IError!") })
}

/// `/index1`: fails with an internal error.
pub fn index1() -> (r: Result<&'static str, MyError>)
    ensures
        r == Err::<&'static str, MyError>(MyError::InternalError),
{
    Err(MyError::InternalError)
}

/// `/index2`: fails with a user-facing internal error.
pub fn index2() -> (r: Result<&'static str, UserError>)
    ensures
        r == Err::<&'static str, UserError>(UserError::InternalError),
{
    Err(UserError::InternalError)
}

/// The record that `/index3` answers with, as JSON.
#[derive(Debug, Clone, Copy, PartialEq, Eq, Structural)]
pub struct DDD {
    pub id: u32,
}

/// `/index3`: the record with id `20`.
pub fn index3() -> (d: DDD)
    ensures
        d == (DDD { id: 20 }),
{
    DDD { id: 20 }
}

/// `/index4`: the map `{1: 2, 2: 2}`, answered as JSON.
pub fn index4() -> (m: HashMap<u32, u32>)
    ensures
        m@ == map![1u32 => 2u32, 2u32 => 2u32],
{
    let mut map: HashMap<u32, u32> = HashMap::new();
    map.insert(1, 2);
    map.insert(2, 2);
    map
}

} // verus!
