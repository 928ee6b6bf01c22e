use filmtrack::config_manager::ConfigManager;
use filmtrack::json::{JsonEntry, JsonNumber, JsonValue};
use filmtrack::timestamp::Timestamp;

fn entry(key: &str, value: JsonValue) -> JsonEntry {
    JsonEntry { key: key.to_string(), value }
}

fn object(entries: Vec<JsonEntry>) -> JsonValue {
    JsonValue::Object(entries)
}

fn text(s: &str) -> JsonValue {
    JsonValue::Str(s.to_string())
}

fn number(n: u64) -> JsonValue {
    JsonValue::Number(JsonNumber::PosInt(n))
}

#[test]
fn scalars_are_read() {
    assert_eq!(JsonValue::parse("null"), Some(JsonValue::Null));
    assert_eq!(JsonValue::parse("true"), Some(JsonValue::Bool(true)));
    assert_eq!(JsonValue::parse(" false "), Some(JsonValue::Bool(false)));
    assert_eq!(JsonValue::parse("\"a\\u4e2d\\n\""), Some(text("a中\n")));
}

#[test]
fn whole_numbers_keep_their_value_and_fractions_their_text() {
    assert_eq!(JsonValue::parse("0"), Some(number(0)));
    assert_eq!(JsonValue::parse("1500"), Some(number(1500)));
    assert_eq!(JsonValue::parse("18446744073709551615"), Some(number(u64::MAX)));
    assert_eq!(JsonValue::parse("-3"), Some(JsonValue::Number(JsonNumber::NegInt(-3))));
    assert_eq!(
        JsonValue::parse("-9223372036854775808"),
        Some(JsonValue::Number(JsonNumber::NegInt(i64::MIN)))
    );
    assert_eq!(
        JsonValue::parse("1.5"),
        Some(JsonValue::Number(JsonNumber::Float("1.5".to_string())))
    );
    assert_eq!(
        JsonValue::parse("1500.0"),
        Some(JsonValue::Number(JsonNumber::Float("1500.0".to_string())))
    );
    assert_eq!(
        JsonValue::parse("-0"),
        Some(JsonValue::Number(JsonNumber::Float("-0.0".to_string())))
    );
    assert!(matches!(
        JsonValue::parse("18446744073709551616"),
        Some(JsonValue::Number(JsonNumber::Float(_)))
    ));
    assert!(matches!(JsonValue::parse("1e3"), Some(JsonValue::Number(JsonNumber::Float(_)))));
}

#[test]
fn arrays_and_objects_are_read_item_by_item() {
    assert_eq!(
        JsonValue::parse("[1, \"a\", [null], {}]"),
        Some(JsonValue::Array(vec![
            number(1),
            text("a"),
            JsonValue::Array(vec![JsonValue::Null]),
            object(vec![]),
        ]))
    );
    assert_eq!(
        JsonValue::parse("{\"b\": {\"y\": 2, \"x\": 1}, \"a\": true}"),
        Some(object(vec![
            entry("a", JsonValue::Bool(true)),
            entry("b", object(vec![entry("x", number(1)), entry("y", number(2))])),
        ]))
    );
}

#[test]
fn a_key_given_twice_keeps_its_last_value() {
    assert_eq!(
        JsonValue::parse("{\"a\": 1, \"a\": 2}"),
        Some(object(vec![entry("a", number(2))]))
    );
}

#[test]
fn what_is_no_json_is_not_read() {
    for bad in ["", "{", "{\"a\": }", "[1,]", "nul", "{'a': 1}", "1 2", "{\"a\": 1} x", "\u{feff}{}"] {
        assert_eq!(JsonValue::parse(bad), None, "{bad:?}");
    }
}

#[test]
fn pretty_text_is_indented_by_two_spaces() {
    let doc = object(vec![
        entry("name", text("filmtrack.db")),
        entry("count", number(3)),
        entry("list", JsonValue::Array(vec![JsonValue::Null, JsonValue::Bool(false)])),
        entry("empty", object(vec![])),
        entry("offset", JsonValue::Number(JsonNumber::NegInt(-7))),
    ]);
    let expected = "{\n  \"count\": 3,\n  \"empty\": {},\n  \"list\": [\n    null,\n    false\n  ],\n  \"name\": \"filmtrack.db\",\n  \"offset\": -7\n}";
    assert_eq!(doc.to_pretty_text(), Some(expected.to_string()));
}

#[test]
fn pretty_text_of_scalars() {
    assert_eq!(JsonValue::Null.to_pretty_text(), Some("null".to_string()));
    assert_eq!(text("a\"b").to_pretty_text(), Some("\"a\\\"b\"".to_string()));
    assert_eq!(
        JsonValue::Number(JsonNumber::Float("1.5".to_string())).to_pretty_text(),
        Some("1.5".to_string())
    );
}

#[test]
fn a_number_that_cannot_be_read_has_no_text() {
    let bad = JsonValue::Number(JsonNumber::Float("not a number".to_string()));
    assert_eq!(bad.to_pretty_text(), None);
    assert_eq!(JsonValue::Array(vec![number(1), bad.duplicate()]).to_pretty_text(), None);
    assert_eq!(
        object(vec![entry("a", object(vec![entry("b", bad)]))]).to_pretty_text(),
        None
    );
    assert_eq!(
        JsonValue::Array(vec![JsonValue::Number(JsonNumber::Float("2.5".to_string()))])
            .to_pretty_text(),
        Some("[\n  2.5\n]".to_string())
    );
}

#[test]
fn writing_and_reading_gives_the_document_back() {
    let source = "{\"window\": {\"x\": -20, \"width\": 1600, \"ratio\": 1.25}, \"tags\": [\"a\", \"b\"], \"on\": true, \"none\": null}";
    let doc = JsonValue::parse(source).unwrap();
    let written = doc.to_pretty_text().unwrap();
    assert_eq!(JsonValue::parse(&written), Some(doc));
}

#[test]
fn a_copy_equals_the_document() {
    let doc = JsonValue::parse("{\"a\": [1, {\"b\": \"c\"}], \"d\": 2.5, \"e\": -1}").unwrap();
    assert_eq!(doc.duplicate(), doc);
}

#[test]
fn an_instant_is_moved_to_utc() {
    let t = Timestamp::parse("2024-03-01T08:30:00+08:00").unwrap();
    assert_eq!(t.to_rfc3339(), "2024-03-01T00:30:00Z");
    assert_eq!(t.duplicate(), t);
}

#[test]
fn an_instant_keeps_the_fraction_that_it_needs() {
    assert_eq!(
        Timestamp::parse("2024-03-01T00:30:00.5Z").unwrap().to_rfc3339(),
        "2024-03-01T00:30:00.500Z"
    );
    assert_eq!(
        Timestamp::parse("2024-03-01T00:30:00.123456789Z").unwrap().to_rfc3339(),
        "2024-03-01T00:30:00.123456789Z"
    );
    assert_eq!(
        Timestamp::parse("2024-03-01T00:30:00.000Z").unwrap().to_rfc3339(),
        "2024-03-01T00:30:00Z"
    );
}

#[test]
fn an_instant_in_canonical_form_reads_as_itself() {
    for text in ["2024-03-01T00:30:00Z", "1999-12-31T23:59:59.250Z", "2024-02-29T12:00:00Z"] {
        assert_eq!(Timestamp::parse(text).unwrap().to_rfc3339(), text);
    }
}

#[test]
fn what_is_no_instant_is_not_read() {
    for bad in ["", "yesterday", "2024-03-01", "2024-13-01T00:00:00Z", "2024-03-01T00:00:00", "12345"] {
        assert!(Timestamp::parse(bad).is_none(), "{bad:?}");
    }
}

#[test]
fn the_store_writes_what_it_reads() {
    let mut store = ConfigManager::new();
    store.load(None).unwrap();
    let saved = store.save().unwrap();
    let mut second = ConfigManager::new();
    second.load(Some(&saved)).unwrap();
    assert_eq!(second.get(), store.get());
    assert_eq!(second.save().unwrap(), saved);
}
