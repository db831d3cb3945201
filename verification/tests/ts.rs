use auto_api::ts::{base_name_of, splice, write_out, Visitor};

fn visitor(pairs: Vec<(&str, &str)>) -> Visitor {
    let mut v = Visitor::new();
    for (name, text) in pairs {
        v.visit(name, text.to_string());
    }
    v
}

#[test]
fn base_name_is_what_stands_before_the_first_angle_bracket() {
    assert_eq!(base_name_of("Page<User>"), "Page");
    assert_eq!(base_name_of("User"), "User");
    assert_eq!(base_name_of("Map<K, Vec<V>>"), "Map");
    assert_eq!(base_name_of("<T>"), "");
    assert_eq!(base_name_of(""), "");
}

#[test]
fn visitor_keeps_one_text_for_a_name() {
    let mut v = Visitor::new();
    assert!(v.map.is_empty());
    v.visit("User", "{ id: string }".to_string());
    v.visit("Page<User>", "{ items: Array<T> }".to_string());
    v.visit("User", "{ id: string, email: string }".to_string());
    assert_eq!(
        v.map,
        vec![
            ("User".to_string(), "{ id: string, email: string }".to_string()),
            ("Page".to_string(), "{ items: Array<T> }".to_string()),
        ]
    );
    v.visit("Page<Post>", "X".to_string());
    assert_eq!(v.map[1], ("Page".to_string(), "X".to_string()));
    assert_eq!(v.map.len(), 2);
}

#[test]
fn splice_joins_the_five_parts() {
    assert_eq!(splice("<", " ", "number", "", ">"), "< number>");
    assert_eq!(splice("", "", "", "", ""), "");
}

#[test]
fn a_name_between_angle_brackets_is_written_out() {
    let r = write_out(Some("Page<User>".to_string()), "User", "{ id: string }");
    assert_eq!(r, Some("Page<{ id: string }>".to_string()));
}

#[test]
fn the_space_around_a_name_is_kept() {
    let r = write_out(Some("Map<string, User >".to_string()), "User", "U");
    assert_eq!(r, Some("Map<string, U >".to_string()));
    let r = write_out(Some("{ a: T, b: T, }".to_string()), "T", "number");
    assert_eq!(r, Some("{ a: number, b: number, }".to_string()));
}

#[test]
fn a_name_that_is_followed_by_nothing_is_left() {
    let r = write_out(Some("User".to_string()), "User", "{ id: string }");
    assert_eq!(r, Some("User".to_string()));
    let r = write_out(Some("{ a: User }".to_string()), "User", "U");
    assert_eq!(r, Some("{ a: User }".to_string()));
}

#[test]
fn the_name_array_is_left() {
    let r = write_out(Some("Array<Array>".to_string()), "Array", "never");
    assert_eq!(r, Some("Array<Array>".to_string()));
}

#[test]
fn characters_of_a_name_are_taken_literally() {
    let r = write_out(Some("Box<a.b>, Box<axb>".to_string()), "a.b", "T");
    assert_eq!(r, Some("Box<T>, Box<axb>".to_string()));
}

#[test]
fn nothing_is_written_out_of_nothing() {
    assert_eq!(write_out(None, "User", "U"), None);
}

#[test]
fn inline_writes_out_generics_then_dependencies() {
    let generics = visitor(vec![("T", "User")]);
    let dependencies = visitor(vec![("User", "{ id: string }")]);
    let r = auto_api::ts::inline("{ items: Array<T>, first: T, }", &generics, &dependencies);
    assert_eq!(
        r,
        Some("{ items: Array<{ id: string }>, first: { id: string }, }".to_string())
    );
}

#[test]
fn inline_without_names_gives_the_text_back() {
    let r = auto_api::ts::inline("{ id: string }", &Visitor::new(), &Visitor::new());
    assert_eq!(r, Some("{ id: string }".to_string()));
}

#[test]
fn inline_applies_names_in_the_order_of_the_visit() {
    let dependencies = visitor(vec![("A", "B"), ("B", "C")]);
    assert_eq!(auto_api::ts::inline("X<A>", &Visitor::new(), &dependencies), Some("X<C>".to_string()));
    let dependencies = visitor(vec![("B", "C"), ("A", "B")]);
    assert_eq!(auto_api::ts::inline("X<A>", &Visitor::new(), &dependencies), Some("X<B>".to_string()));
}
