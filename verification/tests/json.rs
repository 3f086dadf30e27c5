use wft_mirror::Json;

fn object(members: Vec<(&str, Json)>) -> Json {
    Json::Object(members.into_iter().map(|(key, value)| (key.to_string(), value)).collect())
}

fn text(value: &str) -> Json {
    Json::Text(value.to_string())
}

#[test]
fn parse_reads_each_kind_of_value() {
    assert_eq!(&Json::parse("null").unwrap(), &Json::Null);
    assert_eq!(&Json::parse("true").unwrap(), &Json::Bool(true));
    assert_eq!(&Json::parse("false").unwrap(), &Json::Bool(false));
    assert_eq!(&Json::parse("17").unwrap(), &Json::Number(Some(17)));
    assert_eq!(&Json::parse("\"a.jpg\"").unwrap(), &text("a.jpg"));
    assert_eq!(&Json::parse("[]").unwrap(), &Json::Array(vec![]));
    assert_eq!(&Json::parse("{}").unwrap(), &Json::Object(vec![]));
}

#[test]
fn parse_keeps_whole_numbers_up_to_the_largest() {
    assert_eq!(&Json::parse("0").unwrap(), &Json::Number(Some(0)));
    assert_eq!(
        &Json::parse("18446744073709551615").unwrap(),
        &Json::Number(Some(u64::MAX))
    );
}

#[test]
fn parse_marks_other_numbers() {
    assert_eq!(&Json::parse("-1").unwrap(), &Json::Number(None));
    assert_eq!(&Json::parse("1.5").unwrap(), &Json::Number(None));
    assert_eq!(&Json::parse("100.0").unwrap(), &Json::Number(None));
    assert_eq!(&Json::parse("1e2").unwrap(), &Json::Number(None));
    assert_eq!(&Json::parse("18446744073709551616").unwrap(), &Json::Number(None));
}

#[test]
fn parse_reads_nested_values() {
    let parsed = Json::parse("{\"files\": [{\"name\": \"a.jpg\", \"size\": 100}, null]}").unwrap();
    let expected = object(vec![(
        "files",
        Json::Array(vec![
            object(vec![("name", text("a.jpg")), ("size", Json::Number(Some(100)))]),
            Json::Null,
        ]),
    )]);
    assert_eq!(&parsed, &expected);
}

#[test]
fn parse_unescapes_texts() {
    let parsed = Json::parse("\"a\\n\\u00e9\\\"\"").unwrap();
    assert_eq!(&parsed, &text("a\né\""));
}

#[test]
fn parse_hands_out_each_key_once() {
    let parsed = Json::parse("{\"b\": 1, \"a\": 2, \"b\": 3}").unwrap();
    match parsed {
        Json::Object(members) => {
            assert_eq!(members.len(), 2);
            let b = members.iter().find(|(key, _)| key == "b").unwrap();
            assert_eq!(&b.1, &Json::Number(Some(3)));
            let a = members.iter().find(|(key, _)| key == "a").unwrap();
            assert_eq!(&a.1, &Json::Number(Some(2)));
        }
        _ => panic!("an object was expected"),
    }
}

#[test]
fn parse_refuses_what_is_no_json() {
    assert!(Json::parse("").is_none());
    assert!(Json::parse("not json").is_none());
    assert!(Json::parse("{\"files\": [").is_none());
    assert!(Json::parse("{} {}").is_none());
    assert!(Json::parse("{'error': 'x'}").is_none());
    assert!(Json::parse("<html></html>").is_none());
}

#[test]
fn parse_allows_space_around_the_value() {
    assert_eq!(&Json::parse(" \n[ 1 , 2 ]\t").unwrap(), &Json::Array(vec![
        Json::Number(Some(1)),
        Json::Number(Some(2)),
    ]));
}

#[test]
fn member_finds_the_value_of_a_key() {
    let json = object(vec![("name", text("a.jpg")), ("size", Json::Number(Some(100)))]);
    assert_eq!(json.member("name").unwrap(), &text("a.jpg"));
    assert_eq!(json.member("size").unwrap(), &Json::Number(Some(100)));
    assert!(json.member("path").is_none());
    assert!(json.member("").is_none());
}

#[test]
fn member_takes_the_first_of_two_with_one_key() {
    let json = object(vec![("k", Json::Number(Some(1))), ("k", Json::Number(Some(2)))]);
    assert_eq!(json.member("k").unwrap(), &Json::Number(Some(1)));
}

#[test]
fn member_of_what_is_no_object_is_none() {
    assert!(Json::Null.member("k").is_none());
    assert!(Json::Array(vec![text("k")]).member("k").is_none());
    assert!(text("k").member("k").is_none());
}

#[test]
fn text_member_asks_for_a_text() {
    let json = object(vec![("name", text("a.jpg")), ("size", Json::Number(Some(100)))]);
    assert_eq!(json.text_member("name"), Some(&"a.jpg".to_string()));
    assert_eq!(json.text_member("size"), None);
    assert_eq!(json.text_member("path"), None);
}

#[test]
fn number_member_asks_for_a_whole_number() {
    let json = object(vec![
        ("size", Json::Number(Some(100))),
        ("ratio", Json::Number(None)),
        ("name", text("100")),
    ]);
    assert_eq!(json.number_member("size"), Some(100));
    assert_eq!(json.number_member("ratio"), None);
    assert_eq!(json.number_member("name"), None);
    assert_eq!(json.number_member("none"), None);
}
