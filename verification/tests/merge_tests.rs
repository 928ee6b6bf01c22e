use filmtrack::config_manager::ConfigManager;
use filmtrack::json::JsonValue;

fn merged(loaded: &str, default: &str) -> JsonValue {
    ConfigManager::merge_json_values(
        &JsonValue::parse(loaded).unwrap(),
        &JsonValue::parse(default).unwrap(),
    )
}

fn parsed(text: &str) -> JsonValue {
    JsonValue::parse(text).unwrap()
}

#[test]
fn a_stored_value_replaces_the_default() {
    assert_eq!(merged("{\"a\": 2}", "{\"a\": 1}"), parsed("{\"a\": 2}"));
}

#[test]
fn a_key_that_is_not_stored_keeps_its_default() {
    assert_eq!(merged("{\"a\": 2}", "{\"a\": 1, \"b\": 3}"), parsed("{\"a\": 2, \"b\": 3}"));
    assert_eq!(merged("{}", "{\"a\": 1, \"b\": {\"c\": 3}}"), parsed("{\"a\": 1, \"b\": {\"c\": 3}}"));
}

#[test]
fn a_key_that_the_default_lacks_is_dropped() {
    assert_eq!(merged("{\"a\": 2, \"z\": 9}", "{\"a\": 1}"), parsed("{\"a\": 2}"));
    assert_eq!(merged("{\"z\": 9}", "{}"), parsed("{}"));
}

#[test]
fn objects_are_merged_at_every_depth() {
    assert_eq!(
        merged(
            "{\"w\": {\"x\": 5, \"old\": true, \"deep\": {\"k\": \"user\", \"junk\": 0}}}",
            "{\"w\": {\"x\": null, \"y\": null, \"deep\": {\"k\": \"default\", \"n\": 1}}, \"v\": 1}"
        ),
        parsed("{\"w\": {\"x\": 5, \"y\": null, \"deep\": {\"k\": \"user\", \"n\": 1}}, \"v\": 1}")
    );
}

#[test]
fn a_stored_value_that_is_no_object_wins_over_a_default_object() {
    assert_eq!(merged("{\"w\": 5}", "{\"w\": {\"x\": 1}}"), parsed("{\"w\": 5}"));
    assert_eq!(merged("{\"w\": [1, 2]}", "{\"w\": {\"x\": 1}}"), parsed("{\"w\": [1, 2]}"));
    assert_eq!(merged("{\"w\": null}", "{\"w\": {\"x\": 1}}"), parsed("{\"w\": null}"));
}

#[test]
fn a_stored_object_wins_whole_over_a_default_that_is_no_object() {
    assert_eq!(merged("{\"w\": {\"any\": 1}}", "{\"w\": 5}"), parsed("{\"w\": {\"any\": 1}}"));
}

#[test]
fn where_either_document_is_no_object_the_stored_one_is_the_result() {
    assert_eq!(merged("5", "{\"a\": 1}"), parsed("5"));
    assert_eq!(merged("{\"a\": 1}", "5"), parsed("{\"a\": 1}"));
    assert_eq!(merged("[1]", "[2, 3]"), parsed("[1]"));
    assert_eq!(merged("null", "true"), parsed("null"));
}

#[test]
fn arrays_are_not_merged_item_by_item() {
    assert_eq!(
        merged("{\"a\": [{\"x\": 1}]}", "{\"a\": [{\"x\": 0, \"y\": 0}, 2]}"),
        parsed("{\"a\": [{\"x\": 1}]}")
    );
}

#[test]
fn the_result_has_the_keys_of_the_default_in_its_order() {
    let result = merged("{\"c\": 1, \"a\": 2, \"q\": 0}", "{\"a\": 0, \"b\": 0, \"c\": 0}");
    let JsonValue::Object(entries) = result else { panic!("the result is an object") };
    let keys: Vec<&str> = entries.iter().map(|e| e.key.as_str()).collect();
    assert_eq!(keys, vec!["a", "b", "c"]);
}

#[test]
fn merging_a_document_into_itself_changes_nothing() {
    let text = "{\"a\": {\"b\": [1, 2], \"c\": null}, \"d\": \"e\", \"f\": 1.5}";
    assert_eq!(merged(text, text), parsed(text));
}
