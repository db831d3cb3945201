use auto_api::json::{find_member, set_member, Json, Number};

fn member(key: &str, value: Json) -> (String, Json) {
    (key.to_string(), value)
}

#[test]
fn lookup_finds_the_first_member_with_the_key() {
    let j = Json::object(vec![
        member("a", Json::Bool(true)),
        member("b", Json::Null),
        member("a", Json::Bool(false)),
    ]);
    assert_eq!(j.lookup("a"), Some(&Json::Bool(true)));
    assert_eq!(j.lookup("b"), Some(&Json::Null));
    assert_eq!(j.lookup("c"), None);
}

#[test]
fn lookup_in_a_value_that_is_no_object_finds_nothing() {
    assert_eq!(Json::Null.lookup("a"), None);
    assert_eq!(Json::text("a").lookup("a"), None);
    assert_eq!(Json::array(vec![Json::text("a")]).lookup("a"), None);
}

#[test]
fn is_object_tells_objects_from_other_values() {
    assert!(Json::object(vec![]).is_object());
    assert!(!Json::array(vec![]).is_object());
    assert!(!Json::Null.is_object());
    assert!(!Json::Number(Number::Unsigned(1)).is_object());
}

#[test]
fn find_member_gives_the_place_or_the_length() {
    let members = vec![member("x", Json::Null), member("y", Json::Null)];
    assert_eq!(find_member(&members, "x"), 0);
    assert_eq!(find_member(&members, "y"), 1);
    assert_eq!(find_member(&members, "z"), 2);
    assert_eq!(find_member(&vec![], "z"), 0);
}

#[test]
fn set_member_adds_a_new_key_at_the_end() {
    let mut members = vec![member("x", Json::Null)];
    set_member(&mut members, "y".to_string(), Json::Bool(true));
    assert_eq!(members, vec![member("x", Json::Null), member("y", Json::Bool(true))]);
}

#[test]
fn set_member_replaces_a_key_where_it_stands() {
    let mut members = vec![
        member("x", Json::Null),
        member("y", Json::Null),
        member("z", Json::Null),
    ];
    set_member(&mut members, "y".to_string(), Json::text("new"));
    assert_eq!(
        members,
        vec![member("x", Json::Null), member("y", Json::text("new")), member("z", Json::Null)]
    );
}

#[test]
fn duplicate_copies_the_whole_tree() {
    let j = Json::object(vec![
        member("n", Json::Number(Number::Signed(-3))),
        member("d", Json::Number(Number::Decimal("1.5".to_string()))),
        member(
            "list",
            Json::array(vec![Json::text("a"), Json::object(vec![member("k", Json::Bool(false))])]),
        ),
    ]);
    assert_eq!(j.duplicate(), j);
    assert_eq!(Json::Null.duplicate(), Json::Null);
}

#[test]
fn text_holds_the_characters() {
    assert_eq!(Json::text("héllo"), Json::Text("héllo".to_string()));
}
