use skill_io::BussinessInput;
use skill_io::Value;

fn s(text: &str) -> String {
    text.to_string()
}

fn base_entries() -> Vec<(String, Value)> {
    vec![
        (s("request_type"), Value::Str(s("IntentRequest"))),
        (s("action"), Value::Str(s("LAUNCH"))),
        (s("user_id"), Value::Str(s("u1"))),
        (s("session_id"), Value::Str(s("s1"))),
        (s("device_size"), Value::Str(s("large"))),
        (s("is_display_enabled"), Value::Bool(true)),
        (s("is_new_session"), Value::Bool(true)),
        (s("locale"), Value::Str(s("en-US"))),
        (s("args"), Value::Arr(vec![])),
        (s("extras"), Value::Null),
    ]
}

fn without(entries: Vec<(String, Value)>, key: &str) -> Vec<(String, Value)> {
    entries.into_iter().filter(|(k, _)| k != key).collect()
}

fn with(entries: Vec<(String, Value)>, key: &str, value: Value) -> Vec<(String, Value)> {
    let mut out = without(entries, key);
    out.push((s(key), value));
    out
}

#[test]
fn full_payload_decodes() {
    let inp = BussinessInput::decode(Value::Obj(base_entries())).unwrap();
    assert_eq!(inp.request_type, "IntentRequest");
    assert_eq!(inp.action, "LAUNCH");
    assert_eq!(inp.user_id, "u1");
    assert_eq!(inp.session_id, "s1");
    assert_eq!(inp.device_size, "large");
    assert!(inp.is_display_enabled);
    assert!(inp.is_new_session);
    assert_eq!(inp.locale, "en-US");
    assert!(inp.args.is_empty());
    assert!(inp.extras.is_none());
}

#[test]
fn missing_user_id_fails_naming_it() {
    let entries = without(base_entries(), "user_id");
    let err = BussinessInput::decode(Value::Obj(entries)).unwrap_err();
    assert_eq!(err.field, "user_id");
}

#[test]
fn args_order_is_preserved_exactly() {
    let args = Value::Arr(vec![
        Value::Obj(vec![(s("slot"), Value::Str(s("city")))]),
        Value::Obj(vec![(s("value"), Value::Str(s("austin")))]),
    ]);
    let entries = with(base_entries(), "args", args);
    let inp = BussinessInput::decode(Value::Obj(entries)).unwrap();
    assert_eq!(
        inp.args,
        vec![vec![(s("slot"), s("city"))], vec![(s("value"), s("austin"))]]
    );
}

#[test]
fn non_object_payload_fails_at_the_root() {
    let err = BussinessInput::decode(Value::Str(s("not an object"))).unwrap_err();
    assert_eq!(err.field, "$");
}

#[test]
fn wrong_type_fails_naming_the_field() {
    let entries = with(base_entries(), "is_display_enabled", Value::Str(s("yes")));
    let err = BussinessInput::decode(Value::Obj(entries)).unwrap_err();
    assert_eq!(err.field, "is_display_enabled");
}

#[test]
fn first_bad_field_in_contract_order_is_named() {
    let entries = without(without(base_entries(), "request_type"), "user_id");
    let err = BussinessInput::decode(Value::Obj(entries)).unwrap_err();
    assert_eq!(err.field, "request_type");
}

#[test]
fn missing_each_required_field_names_it() {
    for key in [
        "request_type",
        "action",
        "user_id",
        "session_id",
        "device_size",
        "is_display_enabled",
        "is_new_session",
        "locale",
        "args",
    ] {
        let err = BussinessInput::decode(Value::Obj(without(base_entries(), key))).unwrap_err();
        assert_eq!(err.field, key);
    }
}

#[test]
fn extras_object_is_kept_with_its_entries() {
    let extras = Value::Obj(vec![(s("k"), Value::Str(s("v")))]);
    let entries = with(base_entries(), "extras", extras);
    let inp = BussinessInput::decode(Value::Obj(entries)).unwrap();
    assert_eq!(inp.extras, Some(vec![(s("k"), Value::Str(s("v")))]));
}

#[test]
fn extras_missing_defaults_to_unset() {
    let entries = without(base_entries(), "extras");
    let inp = BussinessInput::decode(Value::Obj(entries)).unwrap();
    assert!(inp.extras.is_none());
}

#[test]
fn extras_of_wrong_type_fails() {
    let entries = with(base_entries(), "extras", Value::Bool(true));
    let err = BussinessInput::decode(Value::Obj(entries)).unwrap_err();
    assert_eq!(err.field, "extras");
}

#[test]
fn args_with_a_non_string_slot_value_fails() {
    let args = Value::Arr(vec![Value::Obj(vec![(s("n"), Value::Bool(true))])]);
    let entries = with(base_entries(), "args", args);
    let err = BussinessInput::decode(Value::Obj(entries)).unwrap_err();
    assert_eq!(err.field, "args");
}

#[test]
fn args_that_is_no_array_fails() {
    let entries = with(base_entries(), "args", Value::Str(s("city")));
    let err = BussinessInput::decode(Value::Obj(entries)).unwrap_err();
    assert_eq!(err.field, "args");
}

#[test]
fn duplicate_key_first_occurrence_wins() {
    let mut entries = base_entries();
    entries.push((s("user_id"), Value::Str(s("u2"))));
    let inp = BussinessInput::decode(Value::Obj(entries)).unwrap();
    assert_eq!(inp.user_id, "u1");
}

#[test]
fn unrecognized_top_level_fields_are_ignored() {
    let mut entries = base_entries();
    entries.push((s("zzz"), Value::Num(s("7"))));
    let inp = BussinessInput::decode(Value::Obj(entries)).unwrap();
    assert_eq!(inp.user_id, "u1");
}
