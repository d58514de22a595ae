use dorsal::json::Json;

#[test]
fn parse_keeps_values_by_kind() {
    let doc = Json::parse(r#"{"a":null,"b":true,"c":12,"d":"x","e":[1,"y"],"f":{"g":-3}}"#)
        .expect("an object");
    assert_eq!(doc.member("a"), Some(&Json::Null));
    assert_eq!(doc.member("b"), Some(&Json::Bool(true)));
    assert_eq!(doc.member("c"), Some(&Json::Number(String::from("12"))));
    assert_eq!(doc.member("d"), Some(&Json::Text(String::from("x"))));
    assert_eq!(
        doc.member("e"),
        Some(&Json::List(vec![Json::Number(String::from("1")), Json::Text(String::from("y"))]))
    );
    assert_eq!(
        doc.member("f"),
        Some(&Json::Object(vec![(String::from("g"), Json::Number(String::from("-3")))]))
    );
    assert_eq!(doc.member("z"), None);
}

#[test]
fn parse_refuses_what_is_not_json() {
    assert_eq!(Json::parse(""), None);
    assert_eq!(Json::parse("{"), None);
    assert_eq!(Json::parse("{\"a\":1,}"), None);
    assert_eq!(Json::parse("{'a':1}"), None);
    assert_eq!(Json::parse("nul"), None);
    assert_eq!(Json::parse("1 2"), None);
}

#[test]
fn parse_unescapes_strings() {
    assert_eq!(
        Json::parse(r#""a\"b\\c\n\u00e9""#),
        Some(Json::Text(String::from("a\"b\\c\n\u{e9}")))
    );
}

#[test]
fn member_of_what_is_no_object_is_missing() {
    assert_eq!(Json::Null.member("a"), None);
    assert_eq!(Json::List(vec![]).member("a"), None);
    assert_eq!(Json::Text(String::from("a")).member("a"), None);
}

#[test]
fn member_takes_the_first_of_a_name() {
    let doc = Json::Object(vec![
        (String::from("a"), Json::Bool(false)),
        (String::from("b"), Json::Null),
        (String::from("a"), Json::Bool(true)),
    ]);
    assert_eq!(doc.member("a"), Some(&Json::Bool(false)));
    assert_eq!(doc.member("b"), Some(&Json::Null));
}

#[test]
fn text_member_wants_a_string() {
    let doc = Json::parse(r#"{"a":"x","b":1,"c":null}"#).expect("an object");
    assert_eq!(doc.text_member("a"), Some(String::from("x")));
    assert_eq!(doc.text_member("b"), None);
    assert_eq!(doc.text_member("c"), None);
    assert_eq!(doc.text_member("d"), None);
}

#[test]
fn optional_text_member_takes_null_and_missing_as_none() {
    let doc = Json::parse(r#"{"a":"x","b":1,"c":null}"#).expect("an object");
    assert_eq!(doc.optional_text_member("a"), Some(Some(String::from("x"))));
    assert_eq!(doc.optional_text_member("b"), None);
    assert_eq!(doc.optional_text_member("c"), Some(None));
    assert_eq!(doc.optional_text_member("d"), Some(None));
}

#[test]
fn unsigned_member_wants_a_whole_number() {
    let doc = Json::parse(r#"{"a":0,"b":18446744073709551615,"c":-1,"d":1.5,"e":"1","f":1e3}"#)
        .expect("an object");
    assert_eq!(doc.unsigned_member("a"), Some(0));
    assert_eq!(doc.unsigned_member("b"), Some(u64::MAX as u128));
    assert_eq!(doc.unsigned_member("c"), None);
    assert_eq!(doc.unsigned_member("d"), None);
    assert_eq!(doc.unsigned_member("e"), None);
    assert_eq!(doc.unsigned_member("f"), None);
    assert_eq!(doc.unsigned_member("g"), None);
}

#[test]
fn signed_member_wants_an_i32() {
    let doc = Json::parse(r#"{"a":-2147483648,"b":2147483647,"c":2147483648,"d":0.0}"#)
        .expect("an object");
    assert_eq!(doc.signed_member("a"), Some(i32::MIN));
    assert_eq!(doc.signed_member("b"), Some(i32::MAX));
    assert_eq!(doc.signed_member("c"), None);
    assert_eq!(doc.signed_member("d"), None);
}

#[test]
fn text_list_member_wants_strings_only() {
    let doc = Json::parse(r#"{"a":[],"b":["x","y"],"c":["x",1],"d":"x"}"#).expect("an object");
    assert_eq!(doc.text_list_member("a"), Some(vec![]));
    assert_eq!(doc.text_list_member("b"), Some(vec![String::from("x"), String::from("y")]));
    assert_eq!(doc.text_list_member("c"), None);
    assert_eq!(doc.text_list_member("d"), None);
    assert_eq!(doc.text_list_member("e"), None);
}

#[test]
fn quote_escapes_what_json_wants_escaped() {
    assert_eq!(Json::quote(""), Some(String::from("\"\"")));
    assert_eq!(Json::quote("plain"), Some(String::from("\"plain\"")));
    assert_eq!(Json::quote("a\"b"), Some(String::from("\"a\\\"b\"")));
    assert_eq!(Json::quote("a\\b"), Some(String::from("\"a\\\\b\"")));
    assert_eq!(Json::quote("a\nb\tc"), Some(String::from("\"a\\nb\\tc\"")));
    assert_eq!(Json::quote("\u{1}"), Some(String::from("\"\\u0001\"")));
    assert_eq!(Json::quote("é✓"), Some(String::from("\"é✓\"")));
}

#[test]
fn quote_reads_back() {
    for text in ["", "plain", "a\"b", "a\\b", "line\nbreak", "\u{0}\u{1f}", "é✓", "{\"a\":1}"] {
        let quoted = Json::quote(text).expect("a string");
        assert_eq!(Json::parse(&quoted), Some(Json::Text(String::from(text))));
    }
}

#[test]
fn quote_optional_writes_null_for_none() {
    assert_eq!(Json::quote_optional(&None), Some(String::from("null")));
    assert_eq!(Json::quote_optional(&Some(String::from("x"))), Some(String::from("\"x\"")));
}

#[test]
fn quote_list_writes_an_array() {
    assert_eq!(Json::quote_list(&vec![]), Some(String::from("[]")));
    assert_eq!(Json::quote_list(&vec![String::from("a")]), Some(String::from("[\"a\"]")));
    assert_eq!(
        Json::quote_list(&vec![String::from("a"), String::from("b\"c"), String::new()]),
        Some(String::from("[\"a\",\"b\\\"c\",\"\"]"))
    );
}
