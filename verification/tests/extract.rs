use asn_lookup::extract::get_fn_value;
use asn_lookup::value::Value;

fn text(s: &str) -> Value {
    Value::Text(s.to_string())
}

fn entry(name: &str, value: &str) -> Value {
    Value::Array(vec![text(name), Value::Object(vec![]), text("text"), text(value)])
}

fn card(entries: Vec<Value>) -> Vec<Value> {
    vec![text("vcard"), Value::Array(entries)]
}

#[test]
fn name_alone_is_no_organization() {
    let arr = card(vec![entry("version", "4.0"), entry("fn", "Jane Doe")]);
    assert_eq!(get_fn_value(&arr), Some(("Jane Doe".to_string(), false)));
}

#[test]
fn organization_mark_after_the_name_counts() {
    let arr = card(vec![entry("fn", "Example Org"), entry("kind", "org")]);
    assert_eq!(get_fn_value(&arr), Some(("Example Org".to_string(), true)));
}

#[test]
fn organization_mark_before_the_name_counts() {
    let arr = card(vec![entry("kind", "org"), entry("fn", "Example Org")]);
    assert_eq!(get_fn_value(&arr), Some(("Example Org".to_string(), true)));
}

#[test]
fn organization_mark_in_another_group_counts() {
    let arr = vec![
        Value::Array(vec![entry("fn", "Example Org")]),
        text("between"),
        Value::Array(vec![entry("kind", "org")]),
    ];
    assert_eq!(get_fn_value(&arr), Some(("Example Org".to_string(), true)));
}

#[test]
fn organization_mark_without_a_name_gives_nothing() {
    let arr = card(vec![entry("kind", "org")]);
    assert_eq!(get_fn_value(&arr), None);
}

#[test]
fn no_entries_give_nothing() {
    assert_eq!(get_fn_value(&vec![]), None);
    assert_eq!(get_fn_value(&card(vec![])), None);
    assert_eq!(get_fn_value(&vec![text("vcard")]), None);
}

#[test]
fn other_kinds_are_no_organization() {
    let arr = card(vec![entry("kind", "individual"), entry("fn", "Jane Doe")]);
    assert_eq!(get_fn_value(&arr), Some(("Jane Doe".to_string(), false)));
    let arr = card(vec![entry("kind", "Org"), entry("fn", "Jane Doe")]);
    assert_eq!(get_fn_value(&arr), Some(("Jane Doe".to_string(), false)));
    let arr = card(vec![entry("org", "kind"), entry("fn", "Jane Doe")]);
    assert_eq!(get_fn_value(&arr), Some(("Jane Doe".to_string(), false)));
}

#[test]
fn the_last_name_is_the_one_found() {
    let arr = card(vec![entry("fn", "First"), entry("kind", "org"), entry("fn", "Second")]);
    assert_eq!(get_fn_value(&arr), Some(("Second".to_string(), true)));
    let arr = vec![
        Value::Array(vec![entry("fn", "First")]),
        Value::Array(vec![entry("fn", "Second")]),
        Value::Array(vec![entry("email", "x@example.net")]),
    ];
    assert_eq!(get_fn_value(&arr), Some(("Second".to_string(), false)));
}

#[test]
fn entries_of_another_length_are_passed_over() {
    let three = Value::Array(vec![text("fn"), Value::Object(vec![]), text("Short")]);
    let five = Value::Array(vec![
        text("fn"),
        Value::Object(vec![]),
        text("text"),
        text("Long"),
        text("extra"),
    ]);
    assert_eq!(get_fn_value(&card(vec![three, five])), None);
}

#[test]
fn entries_without_text_at_both_ends_are_passed_over() {
    let number_value = Value::Array(vec![
        text("fn"),
        Value::Object(vec![]),
        text("integer"),
        Value::Number("7".to_string()),
    ]);
    let null_name = Value::Array(vec![Value::Null, Value::Null, Value::Null, text("Nobody")]);
    let list_value = Value::Array(vec![
        text("fn"),
        Value::Object(vec![]),
        text("text"),
        Value::Array(vec![text("A"), text("B")]),
    ]);
    assert_eq!(get_fn_value(&card(vec![number_value, null_name, list_value])), None);
}

#[test]
fn the_second_and_third_elements_are_not_read() {
    let odd = Value::Array(vec![text("fn"), Value::Bool(true), Value::Null, text("Jane Doe")]);
    assert_eq!(get_fn_value(&card(vec![odd])), Some(("Jane Doe".to_string(), false)));
}

#[test]
fn entries_are_read_one_level_down_only() {
    let direct = vec![entry("fn", "Too High")];
    assert_eq!(get_fn_value(&direct), None);
    let deep = vec![Value::Array(vec![Value::Array(vec![entry("fn", "Too Deep")])])];
    assert_eq!(get_fn_value(&deep), None);
}

#[test]
fn an_empty_name_is_still_a_name() {
    let arr = card(vec![entry("fn", "")]);
    assert_eq!(get_fn_value(&arr), Some((String::new(), false)));
}
