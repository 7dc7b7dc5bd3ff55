use skill_io::BussinessOutput;
use skill_io::ResponseCommand;
use skill_io::Value;

fn s(text: &str) -> String {
    text.to_string()
}

#[test]
fn default_output_encodes_to_empty_object() {
    let v = BussinessOutput::new().encode();
    assert_eq!(v, Value::Obj(vec![]));
}

#[test]
fn control_media_command_encodes_with_all_slots_absent() {
    let c = ResponseCommand::new(s("CONTROL_MEDIA"));
    assert_eq!(
        c.encode(),
        Value::Obj(vec![(s("command_type"), Value::Str(s("CONTROL_MEDIA")))])
    );
}

#[test]
fn unset_output_fields_are_omitted_not_null() {
    let mut o = BussinessOutput::new();
    o.prompt_speech = Some(s("hello"));
    assert_eq!(
        o.encode(),
        Value::Obj(vec![(s("prompt_speech"), Value::Str(s("hello")))])
    );
}

#[test]
fn full_output_encodes_every_set_field_in_order() {
    let mut o = BussinessOutput::new();
    o.should_end_session = Some(false);
    o.prompt_speech = Some(s("hi"));
    o.reprompt_speech = Some(s("still there?"));
    o.commands = Some(vec![ResponseCommand::new(s("SEND_EVENT"))]);
    assert_eq!(
        o.encode(),
        Value::Obj(vec![
            (s("should_end_session"), Value::Bool(false)),
            (s("prompt_speech"), Value::Str(s("hi"))),
            (s("reprompt_speech"), Value::Str(s("still there?"))),
            (
                s("commands"),
                Value::Arr(vec![Value::Obj(vec![(
                    s("command_type"),
                    Value::Str(s("SEND_EVENT")),
                )])])
            ),
        ])
    );
}

#[test]
fn commands_encode_in_the_order_appended() {
    let mut o = BussinessOutput::new();
    o.commands = Some(vec![
        ResponseCommand::new(s("CONTROL_MEDIA")),
        ResponseCommand::new(s("SEND_EVENT")),
    ]);
    let v = o.encode();
    assert_eq!(
        v,
        Value::Obj(vec![(
            s("commands"),
            Value::Arr(vec![
                Value::Obj(vec![(s("command_type"), Value::Str(s("CONTROL_MEDIA")))]),
                Value::Obj(vec![(s("command_type"), Value::Str(s("SEND_EVENT")))]),
            ])
        )])
    );
}

#[test]
fn command_keys_encode_as_object_in_entry_order() {
    let mut c = ResponseCommand::new(s("SEND_EVENT"));
    c.keys = Some(vec![(s("b"), s("2")), (s("a"), s("1"))]);
    assert_eq!(
        c.encode(),
        Value::Obj(vec![
            (s("command_type"), Value::Str(s("SEND_EVENT"))),
            (
                s("keys"),
                Value::Obj(vec![
                    (s("b"), Value::Str(s("2"))),
                    (s("a"), Value::Str(s("1"))),
                ])
            ),
        ])
    );
}

#[test]
fn command_payload_slots_pass_through_in_slot_order() {
    let mut c = ResponseCommand::new(s("APL_RENDER_TEMPLATE"));
    c.data = Some(Value::Obj(vec![(s("inner"), Value::Num(s("1")))]));
    c.list_data = Some(Value::Arr(vec![Value::Null]));
    c.random = Some(Value::Bool(true));
    assert_eq!(
        c.encode(),
        Value::Obj(vec![
            (s("command_type"), Value::Str(s("APL_RENDER_TEMPLATE"))),
            (s("data"), Value::Obj(vec![(s("inner"), Value::Num(s("1")))])),
            (s("list_data"), Value::Arr(vec![Value::Null])),
            (s("random"), Value::Bool(true)),
        ])
    );
}
