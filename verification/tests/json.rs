use elastic::json::{decode, find_member, text_of, unsigned_of, Json, ParseError};
use elastic::status::StatusCode;
use elastic::text::text_eq;

fn text(value: &str) -> Json {
    Json::Text(String::from(value))
}

fn object(members: Vec<(&str, Json)>) -> Json {
    Json::Object(members.into_iter().map(|(key, value)| (String::from(key), value)).collect())
}

#[test]
fn decode_scalars() {
    assert_eq!(Ok(Json::Null), decode(b"null"));
    assert_eq!(Ok(Json::Bool(true)), decode(b"true"));
    assert_eq!(Ok(Json::Bool(false)), decode(b" false "));
    assert_eq!(Ok(text("a\"b")), decode(br#""a\"b""#));
    assert_eq!(Ok(text("é")), decode("\"é\"".as_bytes()));
}

#[test]
fn decode_numbers() {
    assert_eq!(Ok(Json::Unsigned(0)), decode(b"0"));
    assert_eq!(Ok(Json::Unsigned(u64::MAX)), decode(b"18446744073709551615"));
    assert_eq!(Ok(Json::Signed(-1)), decode(b"-1"));
    assert_eq!(Ok(Json::Signed(i64::MIN)), decode(b"-9223372036854775808"));
    assert_eq!(Ok(Json::Real(String::from("1.5"))), decode(b"1.5"));
    assert_eq!(Ok(Json::Real(String::from("100.0"))), decode(b"1e2"));
}

#[test]
fn decode_arrays_in_order() {
    assert_eq!(
        Ok(Json::Array(vec![Json::Unsigned(3), Json::Unsigned(1), Json::Array(vec![])])),
        decode(b"[3, 1, []]")
    );
}

#[test]
fn decode_objects_by_key() {
    assert_eq!(
        Ok(object(vec![("a", Json::Unsigned(2)), ("b", Json::Unsigned(1))])),
        decode(br#"{"b": 1, "a": 2}"#)
    );
}

#[test]
fn decode_keeps_the_last_of_a_repeated_key() {
    assert_eq!(
        Ok(object(vec![("a", Json::Unsigned(2))])),
        decode(br#"{"a": 1, "a": 2}"#)
    );
}

#[test]
fn decode_failure_has_the_decoders_message() {
    assert_eq!(
        Err(ParseError { message: String::from("expected value at line 1 column 1") }),
        decode(b"Service Unavailable")
    );
    assert_eq!(
        Err(ParseError { message: String::from("trailing characters at line 1 column 4") }),
        decode(b"{} x")
    );
    assert_eq!(
        Err(ParseError {
            message: String::from("EOF while parsing an object at line 1 column 1")
        }),
        decode(b"{")
    );
}

#[test]
fn get_finds_members_of_objects_only() {
    let tree = object(vec![("a", Json::Unsigned(1)), ("b", text("x"))]);

    assert_eq!(Some(&Json::Unsigned(1)), tree.get("a"));
    assert_eq!(Some(&text("x")), tree.get("b"));
    assert_eq!(None, tree.get("c"));
    assert_eq!(None, tree.get(""));
    assert_eq!(None, Json::Array(vec![Json::Null]).get("a"));
    assert_eq!(None, text("a").get("a"));
}

#[test]
fn find_member_takes_the_first_match() {
    let members = vec![
        (String::from("a"), Json::Unsigned(1)),
        (String::from("a"), Json::Unsigned(2)),
    ];

    assert_eq!(Some(&Json::Unsigned(1)), find_member(&members, "a"));
    assert_eq!(None, find_member(&members, "b"));
    assert_eq!(None, find_member(&Vec::new(), "a"));
}

#[test]
fn accessors_give_what_the_tree_is() {
    assert_eq!(Some(true), Json::Bool(true).as_bool());
    assert_eq!(None, Json::Null.as_bool());
    assert_eq!(Some(7), Json::Unsigned(7).as_u64());
    assert_eq!(None, Json::Signed(-7).as_u64());
    assert_eq!(None, text("7").as_u64());
    assert_eq!(Some("x"), text("x").as_str());
    assert_eq!(None, Json::Real(String::from("1.5")).as_str());
    assert_eq!(Some(&Vec::new()), Json::Object(Vec::new()).as_object());
    assert_eq!(None, Json::Array(Vec::new()).as_object());
}

#[test]
fn members_by_kind() {
    let members = vec![
        (String::from("n"), Json::Unsigned(4)),
        (String::from("t"), text("x")),
    ];

    assert_eq!(Some(String::from("x")), text_of(&members, "t"));
    assert_eq!(None, text_of(&members, "n"));
    assert_eq!(None, text_of(&members, "missing"));
    assert_eq!(Some(4), unsigned_of(&members, "n"));
    assert_eq!(None, unsigned_of(&members, "t"));
}

#[test]
fn clone_is_deep() {
    let tree = object(vec![
        ("a", Json::Array(vec![Json::Null, Json::Signed(-3), object(vec![("b", text("c"))])])),
        ("d", Json::Real(String::from("0.5"))),
    ]);

    assert_eq!(tree, tree.clone());
}

#[test]
fn text_eq_compares_every_byte() {
    assert!(text_eq("", ""));
    assert!(text_eq("abc", "abc"));
    assert!(text_eq("é", "é"));
    assert!(!text_eq("abc", "abd"));
    assert!(!text_eq("abc", "ab"));
    assert!(!text_eq("", "a"));
}

#[test]
fn status_codes_have_three_digits() {
    assert!(StatusCode::from_u16(99).is_none());
    assert!(StatusCode::from_u16(1000).is_none());
    assert!(StatusCode::from_u16(0).is_none());
    assert_eq!(100, StatusCode::from_u16(100).unwrap().as_u16());
    assert_eq!(999, StatusCode::from_u16(999).unwrap().as_u16());
}

#[test]
fn success_is_within_200_and_299() {
    assert!(!StatusCode::from_u16(199).unwrap().is_success());
    assert!(StatusCode::from_u16(200).unwrap().is_success());
    assert!(StatusCode::from_u16(299).unwrap().is_success());
    assert!(!StatusCode::from_u16(300).unwrap().is_success());
    assert!(!StatusCode::from_u16(404).unwrap().is_success());
}

#[test]
fn status_displays_its_number_and_reason() {
    assert_eq!("200 OK", StatusCode::from_u16(200).unwrap().to_string());
    assert_eq!("404 Not Found", StatusCode::from_u16(404).unwrap().to_string());
    assert_eq!("999 <unknown status code>", StatusCode::from_u16(999).unwrap().to_string());
}
