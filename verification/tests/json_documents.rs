use dynamify::json::{parse, Json, Member};

fn text(value: &str) -> Json {
    Json::Text(value.to_string())
}

#[test]
fn parse_keeps_document_order() {
    let parsed = parse("{\"b\": 1, \"a\": [true, null, \"x\"]}").unwrap();
    match parsed {
        Json::Object(entries) => {
            assert_eq!(entries.len(), 2);
            assert_eq!(entries[0].key, "b");
            assert_eq!(entries[1].key, "a");
            assert_eq!(
                entries[1].value,
                Json::Array(vec![Json::Bool(true), Json::Null, text("x")])
            );
        }
        other => panic!("not an object: {:?}", other),
    }
}

#[test]
fn parse_carries_every_kind_of_value_over() {
    assert_eq!(parse("null"), Ok(Json::Null));
    assert_eq!(parse("false"), Ok(Json::Bool(false)));
    assert_eq!(parse("\"a\\nb\""), Ok(text("a\nb")));
    assert_eq!(parse("[]"), Ok(Json::Array(vec![])));
    assert_eq!(parse("{}"), Ok(Json::Object(vec![])));
    assert_eq!(parse("12"), Ok(Json::Number(serde_json::Number::from(12u64))));
    assert_eq!(
        parse("{\"k\":{\"n\":[-7]}}"),
        Ok(Json::Object(vec![Member {
            key: "k".to_string(),
            value: Json::Object(vec![Member {
                key: "n".to_string(),
                value: Json::Array(vec![Json::Number(serde_json::Number::from(-7i64))]),
            }]),
        }]))
    );
}

#[test]
fn parse_reports_the_position_of_a_syntax_error() {
    assert_eq!(parse("{\"a\": }"), Err("expected value at line 1 column 7".to_string()));
    assert_eq!(parse(""), Err("EOF while parsing a value at line 1 column 0".to_string()));
    assert_eq!(parse("[1, 2"), Err("EOF while parsing a list at line 1 column 5".to_string()));
    assert_eq!(parse("{} x"), Err("trailing characters at line 1 column 4".to_string()));
}

#[test]
fn member_takes_the_first_entry_of_a_key() {
    let object = Json::Object(vec![
        Member { key: "a".to_string(), value: text("first") },
        Member { key: "b".to_string(), value: Json::Null },
        Member { key: "a".to_string(), value: text("second") },
    ]);
    assert_eq!(object.member("a"), Some(&text("first")));
    assert_eq!(object.member("b"), Some(&Json::Null));
    assert_eq!(object.member("c"), None);
    assert_eq!(object.member("A"), None);
    assert_eq!(object.member(""), None);
    assert_eq!(Json::Object(vec![]).member("a"), None);
}

#[test]
fn only_an_object_has_members() {
    assert_eq!(Json::Null.member("a"), None);
    assert_eq!(text("a").member("a"), None);
    assert_eq!(Json::Array(vec![text("a")]).member("a"), None);
    assert_eq!(Json::Bool(true).member("true"), None);
}

#[test]
fn a_parsed_object_gives_its_members() {
    let parsed = parse("{\"html\": \"<p>\", \"n\": {\"html\": 1}}").unwrap();
    assert_eq!(parsed.member("html"), Some(&text("<p>")));
    assert_eq!(
        parsed.member("n").and_then(|inner| inner.member("html")),
        Some(&Json::Number(serde_json::Number::from(1u64)))
    );
    assert_eq!(parsed.member("missing"), None);
}
