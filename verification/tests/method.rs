use auto_api::method::Method;

fn all() -> Vec<Method> {
    vec![
        Method::Head,
        Method::Get,
        Method::Post,
        Method::Put,
        Method::Patch,
        Method::Delete,
        Method::Options,
        Method::Connect,
        Method::Trace,
    ]
}

#[test]
fn method_tokens_are_upper_case() {
    let names: Vec<&str> = all().iter().map(|m| m.as_str()).collect();
    assert_eq!(
        names,
        vec!["HEAD", "GET", "POST", "PUT", "PATCH", "DELETE", "OPTIONS", "CONNECT", "TRACE"]
    );
}

#[test]
fn method_keys_are_lower_case() {
    for m in all() {
        assert_eq!(m.lowercase(), m.as_str().to_ascii_lowercase());
    }
}

#[test]
fn method_codes_follow_the_order() {
    let codes: Vec<u8> = all().iter().map(|m| m.code()).collect();
    assert_eq!(codes, vec![0, 1, 2, 3, 4, 5, 6, 7, 8]);
}

#[test]
fn parse_finds_each_method_by_its_token() {
    for m in all() {
        assert_eq!(Method::parse(m.as_str()), Some(m));
    }
}

#[test]
fn parse_refuses_other_tokens() {
    assert_eq!(Method::parse("get"), None);
    assert_eq!(Method::parse(""), None);
    assert_eq!(Method::parse("PROPFIND"), None);
    assert_eq!(Method::parse("GET "), None);
}
