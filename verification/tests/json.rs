use loft::json::Json;

#[test]
fn parse_carries_every_kind_of_value_over() {
    let value = Json::parse(
        br#"{"n":null,"t":true,"u":18446744073709551615,"i":-3,"f":1.5,"s":"text","a":[1,"x"],"o":{"k":false}}"#,
    )
    .unwrap();
    assert_eq!(value.get("n"), Some(&Json::Null));
    assert_eq!(value.get("t"), Some(&Json::Bool(true)));
    assert_eq!(value.get("u"), Some(&Json::UInt(u64::MAX)));
    assert_eq!(value.get("i"), Some(&Json::Int(-3)));
    assert_eq!(value.get("f"), Some(&Json::Float("1.5".to_string())));
    assert_eq!(value.get("s"), Some(&Json::Str("text".to_string())));
    assert_eq!(
        value.get("a"),
        Some(&Json::Array(vec![Json::UInt(1), Json::Str("x".to_string())]))
    );
    assert_eq!(value.get("o").and_then(|o| o.get("k")), Some(&Json::Bool(false)));
    assert_eq!(value.get("missing"), None);
}

#[test]
fn parse_refuses_what_is_not_one_json_value() {
    assert_eq!(Json::parse(b""), None);
    assert_eq!(Json::parse(b"{"), None);
    assert_eq!(Json::parse(b"{} {}"), None);
    assert_eq!(Json::parse(&[0xff, 0xfe]), None);
    assert_eq!(Json::parse(b" 7 "), Some(Json::UInt(7)));
}

#[test]
fn get_finds_the_first_member_of_that_name() {
    let object = Json::object1("a", Json::UInt(1))
        .with_member("b", Json::UInt(2))
        .with_member("a", Json::UInt(3));
    assert_eq!(object.get("a"), Some(&Json::UInt(1)));
    assert_eq!(object.get("b"), Some(&Json::UInt(2)));
    assert_eq!(object.get(""), None);
    assert_eq!(Json::UInt(1).get("a"), None);
    assert_eq!(Json::Array(vec![]).get("a"), None);
}

#[test]
fn builders_make_what_they_say() {
    assert_eq!(Json::string("x"), Json::Str("x".to_string()));
    assert_eq!(Json::string("x").as_str(), Some("x"));
    assert_eq!(Json::Null.as_str(), None);
    assert_eq!(
        Json::Null.with_member("k", Json::Bool(true)),
        Json::Object(vec![("k".to_string(), Json::Bool(true))])
    );
}
