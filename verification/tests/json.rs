use port_sync::json::Json;

fn text(s: &str) -> Json {
    Json::String(s.to_string())
}

fn number(s: &str) -> Json {
    Json::Number(s.to_string())
}

#[test]
fn from_text_reads_every_kind_of_value() {
    assert!(matches!(Json::from_text("null"), Some(Json::Null)));
    assert!(matches!(Json::from_text("true"), Some(Json::Bool(true))));
    assert!(matches!(Json::from_text(" false "), Some(Json::Bool(false))));
    assert!(matches!(Json::from_text("\"a\\nb\""), Some(Json::String(s)) if s == "a\nb"));
    assert!(matches!(Json::from_text("42"), Some(Json::Number(n)) if n == "42"));
    assert!(matches!(Json::from_text("-7"), Some(Json::Number(n)) if n == "-7"));
    assert!(matches!(Json::from_text("1.5"), Some(Json::Number(n)) if n == "1.5"));
    match Json::from_text("[1, [], {\"k\": null}]") {
        Some(Json::Array(items)) => {
            assert_eq!(items.len(), 3);
            assert!(matches!(&items[0], Json::Number(n) if n == "1"));
            assert!(matches!(&items[1], Json::Array(inner) if inner.is_empty()));
            match &items[2] {
                Json::Object(members) => {
                    assert_eq!(members.len(), 1);
                    assert_eq!(members[0].0, "k");
                    assert!(members[0].1.is_null());
                }
                other => panic!("{other:?}"),
            }
        }
        other => panic!("{other:?}"),
    }
}

#[test]
fn from_text_keeps_the_order_of_members() {
    match Json::from_text("{\"z\": 1, \"a\": 2, \"m\": 3}") {
        Some(Json::Object(members)) => {
            let names: Vec<&str> = members.iter().map(|m| m.0.as_str()).collect();
            assert_eq!(names, vec!["z", "a", "m"]);
        }
        other => panic!("{other:?}"),
    }
}

#[test]
fn from_text_rejects_what_is_not_json() {
    assert!(Json::from_text("").is_none());
    assert!(Json::from_text("{").is_none());
    assert!(Json::from_text("{\"a\": }").is_none());
    assert!(Json::from_text("nul").is_none());
    assert!(Json::from_text("1 2").is_none());
    assert!(Json::from_text("<html></html>").is_none());
}

#[test]
fn to_text_prints_compact_json() {
    assert_eq!(Json::Null.to_text(), "null");
    assert_eq!(Json::Bool(true).to_text(), "true");
    assert_eq!(number("51413").to_text(), "51413");
    assert_eq!(number("-7").to_text(), "-7");
    assert_eq!(number("1.123").to_text(), "1.123");
    assert_eq!(text("a\"b").to_text(), "\"a\\\"b\"");
    assert_eq!(Json::Array(vec![]).to_text(), "[]");
    assert_eq!(Json::Object(vec![]).to_text(), "{}");
    let doc = Json::Object(vec![
        ("z".to_string(), Json::Array(vec![number("1"), Json::Null])),
        ("a".to_string(), text("x")),
    ]);
    assert_eq!(doc.to_text(), "{\"z\":[1,null],\"a\":\"x\"}");
}

#[test]
fn to_text_and_from_text_are_inverse() {
    let source = "{\"result\":[[\"abc123\",\"10.0.0.5\",58846,\"user\"]],\"error\":null,\"id\":7}";
    let doc = Json::from_text(source).unwrap();
    assert_eq!(doc.to_text(), source);
}

#[test]
fn constructors_build_the_value_they_name() {
    assert_eq!(Json::number(0).to_text(), "0");
    assert_eq!(Json::number(51413).to_text(), "51413");
    assert_eq!(Json::string("a").to_text(), "\"a\"");
    assert_eq!(Json::array(vec![Json::number(1), Json::number(2)]).to_text(), "[1,2]");
    assert_eq!(
        Json::object(vec![("k".to_string(), Json::Bool(false))]).to_text(),
        "{\"k\":false}"
    );
}

#[test]
fn questions_tell_the_kinds_apart() {
    let doc = Json::from_text("{\"b\": true, \"s\": \"x\", \"n\": 5, \"a\": [1], \"z\": null}")
        .unwrap();
    assert_eq!(doc.get("b").and_then(|v| v.as_bool()), Some(true));
    assert_eq!(doc.get("s").and_then(|v| v.as_str()), Some("x"));
    assert_eq!(doc.get("n").and_then(|v| v.as_u64()), Some(5));
    assert_eq!(doc.get("a").and_then(|v| v.as_array()).map(|a| a.len()), Some(1));
    assert!(doc.get("z").unwrap().is_null());
    assert!(doc.get("missing").is_none());
    assert!(doc.get("b").unwrap().is_boolean());
    assert!(doc.get("a").unwrap().is_array());
    assert!(!doc.get("s").unwrap().is_boolean());
    assert!(doc.get("s").unwrap().as_bool().is_none());
    assert!(doc.get("n").unwrap().as_str().is_none());
    assert!(doc.get("n").unwrap().as_array().is_none());
    assert!(doc.get("n").unwrap().as_object().is_none());
    assert!(doc.as_object().is_some());
    assert!(Json::Null.get("b").is_none());
}

#[test]
fn get_finds_the_first_member_of_a_name() {
    let doc = Json::Object(vec![
        ("k".to_string(), number("1")),
        ("k".to_string(), number("2")),
    ]);
    assert_eq!(doc.get("k").and_then(|v| v.as_u64()), Some(1));
}

#[test]
fn numbers_are_read_as_integers_only_where_they_are_written_as_such() {
    assert_eq!(number("0").as_u64(), Some(0));
    assert_eq!(number("18446744073709551615").as_u64(), Some(u64::MAX));
    assert_eq!(number("18446744073709551616").as_u64(), None);
    assert_eq!(number("-1").as_u64(), None);
    assert_eq!(number("1.0").as_u64(), None);
    assert_eq!(number("1e3").as_u64(), None);
    assert_eq!(text("1").as_u64(), None);
    assert_eq!(number("18446744073709551616").as_u128(u128::MAX), Some(1 << 64));
    assert_eq!(number("5").as_u128(4), None);
    assert_eq!(number("-32601").as_i64(), Some(-32601));
    assert_eq!(number("9223372036854775807").as_i64(), Some(i64::MAX));
    assert_eq!(number("9223372036854775808").as_i64(), None);
    assert_eq!(number("-9223372036854775808").as_i64(), Some(i64::MIN));
    assert_eq!(number("-9223372036854775809").as_i64(), None);
    assert_eq!(number("-").as_i64(), None);
    assert_eq!(number("1.5").as_i64(), None);
}

#[test]
fn numbers_agree_with_serde_json() {
    for source in ["0", "7", "-7", "1.5", "1e3", "18446744073709551615", "18446744073709551616"] {
        let ours = Json::from_text(source).unwrap();
        let theirs: serde_json::Value = serde_json::from_str(source).unwrap();
        assert_eq!(ours.as_u64(), theirs.as_u64(), "{source}");
        assert_eq!(ours.as_i64(), theirs.as_i64(), "{source}");
    }
}

#[test]
fn clone_copies_the_whole_document() {
    let source = "{\"a\":[1,{\"b\":[true,null,\"x\"]}],\"c\":-2.5}";
    let doc = Json::from_text(source).unwrap();
    let copy = doc.clone();
    drop(doc);
    assert_eq!(copy.to_text(), source);
}

#[test]
fn numbers_are_carried_without_loss() {
    for source in [
        "18446744073709551616",
        "340282366920938463463374607431768211455",
        "-9223372036854775809",
        "1.10",
        "1e+5",
        "0.1e-400",
    ] {
        match Json::from_text(source) {
            Some(Json::Number(text)) => assert_eq!(text, source),
            other => panic!("{source}: {other:?}"),
        }
        assert_eq!(number(source).to_text(), source);
    }
    assert_eq!(Json::number(u128::MAX).to_text(), "340282366920938463463374607431768211455");
    assert!(matches!(Json::from_text("1E5"), Some(Json::Number(text)) if text == "1e+5"));
    assert_eq!(number("1E5").to_text(), "1e+5");
}

#[test]
fn text_that_writes_no_number_is_printed_as_null() {
    for source in ["", "abc", "1 2", "+1", "01", "1.", "--1", "0x10", "NaN"] {
        assert_eq!(number(source).to_text(), "null", "{source:?}");
    }
}

#[test]
fn later_member_of_a_name_is_printed_at_the_earlier_place() {
    let doc = Json::Object(vec![
        ("k".to_string(), number("1")),
        ("other".to_string(), Json::Null),
        ("k".to_string(), number("2")),
    ]);
    assert_eq!(doc.to_text(), "{\"k\":2,\"other\":null}");
    match Json::from_text("{\"k\":1,\"other\":null,\"k\":2}") {
        Some(Json::Object(members)) => {
            assert_eq!(members.len(), 2);
            assert_eq!(members[0].0, "k");
            assert_eq!(members[0].1.as_u64(), Some(2));
            assert_eq!(members[1].0, "other");
        }
        other => panic!("{other:?}"),
    }
}

#[test]
fn from_value_takes_over_what_the_value_holds() {
    let mut members = serde_json::Map::new();
    members.insert("b".to_string(), serde_json::Value::Bool(true));
    members.insert(
        "a".to_string(),
        serde_json::Value::Array(vec![
            serde_json::Value::Null,
            serde_json::Value::from(7u64),
            serde_json::Value::from(-7i64),
            serde_json::Value::String("x".to_string()),
        ]),
    );
    let value = serde_json::Value::Object(members);
    match Json::from_value(&value) {
        Json::Object(members) => {
            assert_eq!(members.len(), 2);
            assert_eq!(members[0].0, "b");
            assert!(matches!(members[0].1, Json::Bool(true)));
            assert_eq!(members[1].0, "a");
            match &members[1].1 {
                Json::Array(items) => {
                    assert_eq!(items.len(), 4);
                    assert!(matches!(&items[0], Json::Null));
                    assert!(matches!(&items[1], Json::Number(n) if n == "7"));
                    assert!(matches!(&items[2], Json::Number(n) if n == "-7"));
                    assert!(matches!(&items[3], Json::String(s) if s == "x"));
                }
                other => panic!("{other:?}"),
            }
        }
        other => panic!("{other:?}"),
    }
}

#[test]
fn to_value_builds_what_serde_json_would_read() {
    let source = "{\"z\":[1,-2,3.5,\"s\",null,true,{}],\"a\":{\"k\":[]}}";
    let ours = Json::from_text(source).unwrap().to_value();
    let theirs: serde_json::Value = serde_json::from_str(source).unwrap();
    assert_eq!(ours, theirs);
    assert_eq!(Json::from_value(&theirs).to_text(), source);
    assert_eq!(number("x").to_value(), serde_json::Value::Null);
    assert_eq!(number("12").to_value(), serde_json::Value::from(12u64));
}
