//! The immutable snapshot of one inbound turn, and its decoder. Every
//! required field must be present and type-correct or decoding fails with the
//! offending field path; `extras` is the only optional top-level field. The
//! `args` order is meaningful and is preserved exactly as received.

use vstd::prelude::*;

use crate::command::str_map_value;
use crate::value::Value;
use crate::value::lemma_lookup_push;
use crate::value::lookup;
use crate::value::obj_entries;
use crate::value::str_eq;

verus! {

/// One decoded inbound turn. Created once per turn; never mutated.
#[derive(Debug, PartialEq)]
pub struct BussinessInput {
    pub request_type: String,
    pub action: String,
    pub user_id: String,
    pub session_id: String,
    pub device_size: String,
    pub is_display_enabled: bool,
    pub is_new_session: bool,
    pub locale: String,
    pub args: Vec<Vec<(String, String)>>,
    pub extras: Option<Vec<(String, Value)>>,
}

/// A failed decode, identifying the offending field path; `"$"` names the
/// payload root. Unrecognized action tokens are not decode errors.
#[derive(Debug, Clone, PartialEq, Eq)]
pub struct DecodeError {
    pub field: String,
}

/// The object has an entry named `key` holding a string.
pub open spec fn has_str(f: Seq<(String, Value)>, key: Seq<char>) -> bool {
    lookup(f, key) matches Some(Value::Str(_))
}

/// The object has an entry named `key` holding a boolean.
pub open spec fn has_bool(f: Seq<(String, Value)>, key: Seq<char>) -> bool {
    lookup(f, key) matches Some(Value::Bool(_))
}

/// `v` is an object whose entry values are all strings: the shape of one
/// slot-value mapping in `args`.
pub open spec fn is_str_map(v: Value) -> bool {
    match v {
        Value::Obj(entries) => forall|j: int|
            #![auto]
            0 <= j < entries@.len() ==> entries@[j].1 is Str,
        _ => false,
    }
}

/// Every element is a string-valued object.
pub open spec fn all_str_maps(items: Seq<Value>) -> bool {
    forall|i: int| #![auto] 0 <= i < items.len() ==> is_str_map(items[i])
}

/// The `args` entry is present, an array, and each element a string-valued
/// object.
pub open spec fn args_field_ok(f: Seq<(String, Value)>) -> bool {
    match lookup(f, "args"@) {
        Some(Value::Arr(items)) => all_str_maps(items@),
        _ => false,
    }
}

/// The `extras` entry, if present, is null or an object; it may also be
/// absent altogether.
pub open spec fn extras_field_ok(f: Seq<(String, Value)>) -> bool {
    match lookup(f, "extras"@) {
        None => true,
        Some(Value::Null) => true,
        Some(Value::Obj(_)) => true,
        Some(_) => false,
    }
}

/// The first field, in the wire contract's field order, that is missing or
/// type-incorrect in payload `v`; `None` when the payload decodes.
pub open spec fn spec_first_error(v: Value) -> Option<Seq<char>> {
    if !(v is Obj) {
        Some("$"@)
    } else {
        let f = obj_entries(v);
        if !has_str(f, "request_type"@) {
            Some("request_type"@)
        } else if !has_str(f, "action"@) {
            Some("action"@)
        } else if !has_str(f, "user_id"@) {
            Some("user_id"@)
        } else if !has_str(f, "session_id"@) {
            Some("session_id"@)
        } else if !has_str(f, "device_size"@) {
            Some("device_size"@)
        } else if !has_bool(f, "is_display_enabled"@) {
            Some("is_display_enabled"@)
        } else if !has_bool(f, "is_new_session"@) {
            Some("is_new_session"@)
        } else if !has_str(f, "locale"@) {
            Some("locale"@)
        } else if !args_field_ok(f) {
            Some("args"@)
        } else if !extras_field_ok(f) {
            Some("extras"@)
        } else {
            None
        }
    }
}

/// `args` is the decoded form of the array value `av`: one slot-value
/// mapping per element, in the exact order received.
pub open spec fn args_decoding(av: Value, args: Vec<Vec<(String, String)>>) -> bool {
    match av {
        Value::Arr(items) => {
            &&& args@.len() == items@.len()
            &&& forall|i: int|
                #![auto]
                0 <= i < items@.len() ==> str_map_value(items@[i], args@[i]@)
        },
        _ => false,
    }
}

/// `extras` is the decoded form of what the `extras` lookup found: absent
/// and null both decode to unset, an object keeps its entries.
pub open spec fn extras_decoding(found: Option<Value>, extras: Option<Vec<(String, Value)>>) -> bool {
    match found {
        None => extras is None,
        Some(Value::Null) => extras is None,
        Some(Value::Obj(entries)) => extras == Some(entries),
        Some(_) => false,
    }
}

/// `inp` is the decoded record of payload `v`: every field equals the value
/// its wire name looks up to.
pub open spec fn decode_ok(v: Value, inp: BussinessInput) -> bool {
    let f = obj_entries(v);
    &&& lookup(f, "request_type"@) == Some(Value::Str(inp.request_type))
    &&& lookup(f, "action"@) == Some(Value::Str(inp.action))
    &&& lookup(f, "user_id"@) == Some(Value::Str(inp.user_id))
    &&& lookup(f, "session_id"@) == Some(Value::Str(inp.session_id))
    &&& lookup(f, "device_size"@) == Some(Value::Str(inp.device_size))
    &&& lookup(f, "is_display_enabled"@) == Some(Value::Bool(inp.is_display_enabled))
    &&& lookup(f, "is_new_session"@) == Some(Value::Bool(inp.is_new_session))
    &&& lookup(f, "locale"@) == Some(Value::Str(inp.locale))
    &&& (lookup(f, "args"@) matches Some(av) && args_decoding(av, inp.args))
    &&& extras_decoding(lookup(f, "extras"@), inp.extras)
}

/// Decode one slot-value mapping: an object all of whose values are strings.
fn decode_str_map(v: Value) -> (r: Result<Vec<(String, String)>, ()>)
    ensures
        match r {
            Ok(m) => is_str_map(v) && str_map_value(v, m@),
            Err(_) => !is_str_map(v),
        },
{
    let entries = match v {
        Value::Obj(entries) => entries,
        _ => return Err(()),
    };
    let ghost orig = entries@;
    let mut rest = entries;
    let mut out: Vec<(String, String)> = Vec::new();
    while rest.len() > 0
        invariant
            v is Obj,
            obj_entries(v) == orig,
            out@.len() + rest@.len() == orig.len(),
            rest@ == orig.subrange(out@.len() as int, orig.len() as int),
            forall|j: int|
                #![auto]
                0 <= j < out@.len() ==> out@[j].0 == orig[j].0 && orig[j].1 == Value::Str(
                    out@[j].1,
                ),
        decreases rest.len(),
    {
        let ghost done = out@.len() as int;
        let (key, val) = rest.remove(0);
        proof {
            assert(rest@ =~= orig.subrange(done + 1, orig.len() as int));
        }
        match val {
            Value::Str(s) => out.push((key, s)),
            _ => {
                proof {
                    assert(!is_str_map(v));
                }
                return Err(());
            },
        }
    }
    Ok(out)
}

/// Decode the `args` array: each element one slot-value mapping, the order
/// preserved exactly as received.
fn decode_args(items: Vec<Value>) -> (r: Result<Vec<Vec<(String, String)>>, ()>)
    ensures
        match r {
            Ok(out) => {
                &&& all_str_maps(items@)
                &&& out@.len() == items@.len()
                &&& forall|i: int|
                    #![auto]
                    0 <= i < items@.len() ==> str_map_value(items@[i], out@[i]@)
            },
            Err(_) => !all_str_maps(items@),
        },
{
    let ghost orig = items@;
    let mut rest = items;
    let mut out: Vec<Vec<(String, String)>> = Vec::new();
    while rest.len() > 0
        invariant
            orig == items@,
            out@.len() + rest@.len() == orig.len(),
            rest@ == orig.subrange(out@.len() as int, orig.len() as int),
            forall|i: int| #![auto] 0 <= i < out@.len() ==> is_str_map(orig[i]),
            forall|i: int| #![auto] 0 <= i < out@.len() ==> str_map_value(orig[i], out@[i]@),
        decreases rest.len(),
    {
        let ghost done = out@.len() as int;
        let item = rest.remove(0);
        proof {
            assert(rest@ =~= orig.subrange(done + 1, orig.len() as int));
        }
        match decode_str_map(item) {
            Ok(m) => out.push(m),
            Err(_) => {
                proof {
                    assert(!is_str_map(orig[done]));
                }
                return Err(());
            },
        }
    }
    Ok(out)
}

impl BussinessInput {
    /// Decode one inbound payload into a request record, or fail naming the
    /// first missing or type-incorrect required field. No semantic check of
    /// the `action` string against the action tokens happens here; that
    /// reading is left to the business-logic handler.
    pub fn decode(v: Value) -> (r: Result<BussinessInput, DecodeError>)
        ensures
            match r {
                Ok(inp) => spec_first_error(v) is None && decode_ok(v, inp),
                Err(e) => spec_first_error(v) == Some(e.field@),
            },
    {
        let fields = match v {
            Value::Obj(fields) => fields,
            _ => return Err(DecodeError { field: "$".to_owned() }),
        };
        let ghost all = fields@;
        let mut rest = fields;
        let mut s_request_type: Option<Value> = None;
        let mut s_action: Option<Value> = None;
        let mut s_user_id: Option<Value> = None;
        let mut s_session_id: Option<Value> = None;
        let mut s_device_size: Option<Value> = None;
        let mut s_is_display_enabled: Option<Value> = None;
        let mut s_is_new_session: Option<Value> = None;
        let mut s_locale: Option<Value> = None;
        let mut s_args: Option<Value> = None;
        let mut s_extras: Option<Value> = None;
        proof {
            assert(all.subrange(0, all.len() as int) =~= all);
            assert(all.take(0) =~= Seq::<(String, Value)>::empty());
        }
        while rest.len() > 0
            invariant
                rest@.len() <= all.len(),
                rest@ == all.subrange(all.len() - rest@.len(), all.len() as int),
                s_request_type == lookup(all.take(all.len() - rest@.len()), "request_type"@),
                s_action == lookup(all.take(all.len() - rest@.len()), "action"@),
                s_user_id == lookup(all.take(all.len() - rest@.len()), "user_id"@),
                s_session_id == lookup(all.take(all.len() - rest@.len()), "session_id"@),
                s_device_size == lookup(all.take(all.len() - rest@.len()), "device_size"@),
                s_is_display_enabled == lookup(
                    all.take(all.len() - rest@.len()),
                    "is_display_enabled"@,
                ),
                s_is_new_session == lookup(all.take(all.len() - rest@.len()), "is_new_session"@),
                s_locale == lookup(all.take(all.len() - rest@.len()), "locale"@),
                s_args == lookup(all.take(all.len() - rest@.len()), "args"@),
                s_extras == lookup(all.take(all.len() - rest@.len()), "extras"@),
            decreases rest.len(),
        {
            let ghost done = all.len() - rest@.len();
            let (key, val) = rest.remove(0);
            proof {
                reveal_strlit("request_type");
                reveal_strlit("action");
                reveal_strlit("user_id");
                reveal_strlit("session_id");
                reveal_strlit("device_size");
                reveal_strlit("is_display_enabled");
                reveal_strlit("is_new_session");
                reveal_strlit("locale");
                reveal_strlit("args");
                reveal_strlit("extras");
                assert("request_type"@.len() == 12);
                assert("action"@.len() == 6);
                assert("user_id"@.len() == 7);
                assert("session_id"@.len() == 10);
                assert("device_size"@.len() == 11);
                assert("is_display_enabled"@.len() == 18);
                assert("is_new_session"@.len() == 14);
                assert("locale"@.len() == 6);
                assert("args"@.len() == 4);
                assert("extras"@.len() == 6);
                assert("action"@[0] == 'a');
                assert("locale"@[0] == 'l');
                assert("extras"@[0] == 'e');
                assert(rest@ =~= all.subrange(done + 1, all.len() as int));
                assert((key, val) == all[done]);
                assert(all.take(done + 1) =~= all.take(done).push(all[done]));
                lemma_lookup_push(all.take(done), all[done], "request_type"@);
                lemma_lookup_push(all.take(done), all[done], "action"@);
                lemma_lookup_push(all.take(done), all[done], "user_id"@);
                lemma_lookup_push(all.take(done), all[done], "session_id"@);
                lemma_lookup_push(all.take(done), all[done], "device_size"@);
                lemma_lookup_push(all.take(done), all[done], "is_display_enabled"@);
                lemma_lookup_push(all.take(done), all[done], "is_new_session"@);
                lemma_lookup_push(all.take(done), all[done], "locale"@);
                lemma_lookup_push(all.take(done), all[done], "args"@);
                lemma_lookup_push(all.take(done), all[done], "extras"@);
            }
            if str_eq(key.as_str(), "request_type") {
                if s_request_type.is_none() {
                    s_request_type = Some(val);
                }
            } else if str_eq(key.as_str(), "action") {
                if s_action.is_none() {
                    s_action = Some(val);
                }
            } else if str_eq(key.as_str(), "user_id") {
                if s_user_id.is_none() {
                    s_user_id = Some(val);
                }
            } else if str_eq(key.as_str(), "session_id") {
                if s_session_id.is_none() {
                    s_session_id = Some(val);
                }
            } else if str_eq(key.as_str(), "device_size") {
                if s_device_size.is_none() {
                    s_device_size = Some(val);
                }
            } else if str_eq(key.as_str(), "is_display_enabled") {
                if s_is_display_enabled.is_none() {
                    s_is_display_enabled = Some(val);
                }
            } else if str_eq(key.as_str(), "is_new_session") {
                if s_is_new_session.is_none() {
                    s_is_new_session = Some(val);
                }
            } else if str_eq(key.as_str(), "locale") {
                if s_locale.is_none() {
                    s_locale = Some(val);
                }
            } else if str_eq(key.as_str(), "args") {
                if s_args.is_none() {
                    s_args = Some(val);
                }
            } else if str_eq(key.as_str(), "extras") {
                if s_extras.is_none() {
                    s_extras = Some(val);
                }
            }
            // an unrecognized top-level field is ignored
        }
        proof {
            assert(all.take(all.len() as int) =~= all);
        }
        let request_type = match s_request_type {
            Some(Value::Str(s)) => s,
            _ => return Err(DecodeError { field: "request_type".to_owned() }),
        };
        let action = match s_action {
            Some(Value::Str(s)) => s,
            _ => return Err(DecodeError { field: "action".to_owned() }),
        };
        let user_id = match s_user_id {
            Some(Value::Str(s)) => s,
            _ => return Err(DecodeError { field: "user_id".to_owned() }),
        };
        let session_id = match s_session_id {
            Some(Value::Str(s)) => s,
            _ => return Err(DecodeError { field: "session_id".to_owned() }),
        };
        let device_size = match s_device_size {
            Some(Value::Str(s)) => s,
            _ => return Err(DecodeError { field: "device_size".to_owned() }),
        };
        let is_display_enabled = match s_is_display_enabled {
            Some(Value::Bool(b)) => b,
            _ => return Err(DecodeError { field: "is_display_enabled".to_owned() }),
        };
        let is_new_session = match s_is_new_session {
            Some(Value::Bool(b)) => b,
            _ => return Err(DecodeError { field: "is_new_session".to_owned() }),
        };
        let locale = match s_locale {
            Some(Value::Str(s)) => s,
            _ => return Err(DecodeError { field: "locale".to_owned() }),
        };
        let arg_items = match s_args {
            Some(Value::Arr(items)) => items,
            _ => return Err(DecodeError { field: "args".to_owned() }),
        };
        let args = match decode_args(arg_items) {
            Ok(args) => args,
            Err(_) => return Err(DecodeError { field: "args".to_owned() }),
        };
        let extras = match s_extras {
            None => None,
            Some(Value::Null) => None,
            Some(Value::Obj(entries)) => Some(entries),
            Some(_) => return Err(DecodeError { field: "extras".to_owned() }),
        };
        Ok(
            BussinessInput {
                request_type,
                action,
                user_id,
                session_id,
                device_size,
                is_display_enabled,
                is_new_session,
                locale,
                args,
                extras,
            },
        )
    }
}

} // verus!
