use std::collections::HashMap;

use demo_server::errors::{MyError, UserError};
use demo_server::routes::{index1, index2, index3, index4, update3, update7, welcome, DDD};

#[test]
fn welcome_shows_name_and_number() {
    assert_eq!(welcome("bob", 7), "Welcome bob, user_id 7!");
    assert_eq!(welcome("", -15), "Welcome , user_id -15!");
    assert_eq!(welcome("ana", i32::MIN), "Welcome ana, user_id -2147483648!");
}

#[test]
fn update3_greets_the_friend_by_parsed_id() {
    assert_eq!(update3(Some("bob"), "42"), "Welcome bob, user_id 42!");
    assert_eq!(update3(Some("eve"), "+0042"), "Welcome eve, user_id 42!");
    assert_eq!(update3(Some("joe"), "-3"), "Welcome joe, user_id -3!");
}

#[test]
fn update7_fails_with_its_named_error() {
    match update7() {
        Err(e) => assert_eq!(e.to_string(), "IError :IError!"),
        Ok(_) => panic!("update7 succeeded"),
    }
}

#[test]
fn index1_and_index2_fail() {
    assert_eq!(index1(), Err(MyError::InternalError));
    assert_eq!(index2(), Err(UserError::InternalError));
}

#[test]
fn index3_is_record_twenty() {
    assert_eq!(index3(), DDD { id: 20 });
}

#[test]
fn index4_maps_one_and_two_to_two() {
    let mut expected = HashMap::new();
    expected.insert(1u32, 2u32);
    expected.insert(2u32, 2u32);
    assert_eq!(index4(), expected);
}
