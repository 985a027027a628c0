use tracing_splunk_layer::EventStorage;
use tracing_splunk_layer::Field;
use tracing_splunk_layer::FieldValue;

#[derive(Debug)]
struct Endpoint {
    host: &'static str,
    port: u16,
}

#[derive(Debug)]
enum Mode {
    Fast,
}

fn text(value: &str) -> FieldValue {
    FieldValue::Str(value.to_string())
}

fn by_name(fields: &[Field]) -> Vec<Field> {
    let mut sorted = fields.to_vec();
    sorted.sort_by(|left, right| left.name.cmp(&right.name));
    sorted
}

#[test]
fn it_works() {
    let result = 2 + 2;
    assert_eq!(result, 4);
}

#[test]
fn new_store_has_no_fields() {
    let store = EventStorage::new();
    assert!(store.events().is_empty());
    assert!(store.is_empty());
    assert_eq!(store.len(), 0);
    assert_eq!(store.get("level"), None);
}

#[test]
fn len_counts_names_not_writes() {
    let mut store = EventStorage::new();
    store.record_i64("a", 1);
    assert!(!store.is_empty());
    assert_eq!(store.len(), 1);
    store.record_i64("a", 2);
    assert_eq!(store.len(), 1);
    store.record_i64("b", 2);
    assert_eq!(store.len(), 2);
}

#[test]
fn default_store_has_no_fields() {
    let store = EventStorage::default();
    assert!(store.events().is_empty());
}

#[test]
fn record_i64_keeps_the_signed_value() {
    let mut store = EventStorage::new();
    store.record_i64("delta", -7);
    assert_eq!(store.get("delta"), Some(&FieldValue::I64(-7)));
    store.record_i64("low", i64::MIN);
    assert_eq!(store.get("low"), Some(&FieldValue::I64(i64::MIN)));
}

#[test]
fn record_u64_keeps_the_unsigned_value() {
    let mut store = EventStorage::new();
    store.record_u64("bytes", u64::MAX);
    assert_eq!(store.get("bytes"), Some(&FieldValue::U64(u64::MAX)));
}

#[test]
fn record_f64_keeps_the_bits() {
    let mut store = EventStorage::new();
    store.record_f64("ratio", 1.5f64.to_bits());
    match store.get("ratio") {
        Some(FieldValue::F64(bits)) => assert_eq!(f64::from_bits(*bits), 1.5),
        other => panic!("not a float: {:?}", other),
    }
    store.record_f64("nan", f64::NAN.to_bits());
    assert_eq!(store.get("nan"), Some(&FieldValue::F64(f64::NAN.to_bits())));
}

#[test]
fn record_bool_keeps_the_flag() {
    let mut store = EventStorage::new();
    store.record_bool("a_bool", true);
    store.record_bool("other", false);
    assert_eq!(store.get("a_bool"), Some(&FieldValue::Bool(true)));
    assert_eq!(store.get("other"), Some(&FieldValue::Bool(false)));
}

#[test]
fn record_str_keeps_the_text() {
    let mut store = EventStorage::new();
    store.record_str("message", "first example");
    store.record_str("empty", "");
    assert_eq!(store.get("message"), Some(&text("first example")));
    assert_eq!(store.get("empty"), Some(&text("")));
}

#[test]
fn record_debug_stores_the_rendering_as_a_string() {
    let mut store = EventStorage::new();
    store.record_debug("endpoint", &Endpoint { host: "db", port: 5432 });
    store.record_debug("mode", &Mode::Fast);
    store.record_debug("pair", &(1, "x"));
    assert_eq!(store.get("endpoint"), Some(&text("Endpoint { host: \"db\", port: 5432 }")));
    assert_eq!(store.get("mode"), Some(&text("Fast")));
    assert_eq!(store.get("pair"), Some(&text("(1, \"x\")")));
    assert_eq!(store.events().len(), 3);
}

#[test]
fn record_debug_of_a_string_keeps_its_quotes() {
    let mut store = EventStorage::new();
    store.record_debug("message", &"hi");
    assert_eq!(store.get("message"), Some(&text("\"hi\"")));
}

#[test]
fn a_later_write_replaces_the_value_under_the_same_name() {
    let mut store = EventStorage::new();
    store.record_i64("level", 0);
    store.record_str("other", "kept");
    store.record_bool("level", true);
    assert_eq!(store.get("level"), Some(&FieldValue::Bool(true)));
    assert_eq!(store.get("other"), Some(&text("kept")));
    assert_eq!(store.events().len(), 2);
}

#[test]
fn names_differ_by_case_and_by_length() {
    let mut store = EventStorage::new();
    store.record_i64("level", 1);
    store.record_i64("Level", 2);
    store.record_i64("levels", 3);
    store.record_i64("", 4);
    assert_eq!(store.get("level"), Some(&FieldValue::I64(1)));
    assert_eq!(store.get("Level"), Some(&FieldValue::I64(2)));
    assert_eq!(store.get("levels"), Some(&FieldValue::I64(3)));
    assert_eq!(store.get(""), Some(&FieldValue::I64(4)));
    assert_eq!(store.get("leve"), None);
}

#[test]
fn events_lists_each_name_once() {
    let mut store = EventStorage::new();
    store.record_i64("b", 2);
    store.record_i64("a", 1);
    store.record_i64("b", 4);
    store.record_i64("a", 3);
    let expected = vec![
        Field::new("a", FieldValue::I64(3)),
        Field::new("b", FieldValue::I64(4)),
    ];
    assert_eq!(by_name(store.events()), expected);
}

#[test]
fn record_writes_any_value() {
    let mut store = EventStorage::new();
    store.record("answer", FieldValue::U64(42));
    store.record("answer", text("forty-two"));
    assert_eq!(store.get("answer"), Some(&text("forty-two")));
}

#[test]
fn record_field_writes_name_and_value() {
    let mut store = EventStorage::new();
    let field = Field::new("answer", FieldValue::I64(42));
    store.record_field(&field);
    assert_eq!(store.get("answer"), Some(&FieldValue::I64(42)));
    assert_eq!(field, Field::new("answer", FieldValue::I64(42)));
}

#[test]
fn merge_writes_every_field_and_the_last_of_a_name_stays() {
    let mut store = EventStorage::new();
    store.record_i64("kept", 1);
    store.record_i64("level", 0);
    let fields = vec![
        Field::new("level", FieldValue::I64(1)),
        Field::new("a_bool", FieldValue::Bool(true)),
        Field::new("level", FieldValue::I64(2)),
    ];
    store.merge(&fields);
    assert_eq!(store.get("kept"), Some(&FieldValue::I64(1)));
    assert_eq!(store.get("level"), Some(&FieldValue::I64(2)));
    assert_eq!(store.get("a_bool"), Some(&FieldValue::Bool(true)));
    assert_eq!(store.events().len(), 3);
}

#[test]
fn merge_of_no_fields_changes_nothing() {
    let mut store = EventStorage::new();
    store.record_i64("level", 0);
    store.merge(&[]);
    assert_eq!(store.events(), &vec![Field::new("level", FieldValue::I64(0))]);
}

#[test]
fn merging_in_two_steps_is_merging_the_lists_in_a_row() {
    let first = vec![
        Field::new("a", FieldValue::I64(1)),
        Field::new("b", FieldValue::I64(2)),
    ];
    let second = vec![
        Field::new("b", FieldValue::I64(3)),
        Field::new("c", FieldValue::I64(4)),
    ];
    let mut stepwise = EventStorage::new();
    stepwise.merge(&first);
    stepwise.merge(&second);
    let mut joined = first.clone();
    joined.extend(second.iter().cloned());
    let mut at_once = EventStorage::new();
    at_once.merge(&joined);
    assert_eq!(by_name(stepwise.events()), by_name(at_once.events()));
    assert_eq!(stepwise.get("a"), Some(&FieldValue::I64(1)));
    assert_eq!(stepwise.get("b"), Some(&FieldValue::I64(3)));
    assert_eq!(stepwise.get("c"), Some(&FieldValue::I64(4)));
}

#[test]
fn a_clone_has_the_same_fields_and_is_detached() {
    let mut source = EventStorage::new();
    source.record_i64("level", 0);
    source.record_str("message", "kept");
    let mut copy = source.clone();
    assert_eq!(by_name(copy.events()), by_name(source.events()));
    source.record_i64("level", 9);
    source.record_bool("late", true);
    assert_eq!(copy.get("level"), Some(&FieldValue::I64(0)));
    assert_eq!(copy.get("late"), None);
    copy.record_i64("mine", 1);
    assert_eq!(source.get("mine"), None);
}

#[test]
fn field_value_clone_is_equal() {
    let values = vec![
        FieldValue::I64(-1),
        FieldValue::U64(1),
        FieldValue::F64(2.25f64.to_bits()),
        FieldValue::Bool(true),
        text("x"),
    ];
    for value in &values {
        assert_eq!(&value.clone(), value);
    }
    assert_ne!(FieldValue::I64(1), FieldValue::U64(1));
}
