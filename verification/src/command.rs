//! Device/session side-effect commands carried in a response: the closed set
//! of command kinds with their canonical wire tokens, and one command record
//! with four independently optional payload slots.

use vstd::prelude::*;

use crate::value::Value;
use crate::value::str_eq;

verus! {

/// The kind of side effect a command asks the platform for.
#[derive(Debug, Clone, Copy, PartialEq, Eq, Structural)]
pub enum ResponseCommandType {
    SendEvent,
    ControlMedia,
    AplRenderTemplate,
    AplaRenderTemplate,
    SetSessionAttribute,
}

impl ResponseCommandType {
    /// The canonical uppercase wire token of each variant.
    pub open spec fn spec_token(self) -> Seq<char> {
        match self {
            ResponseCommandType::SendEvent => "SEND_EVENT"@,
            ResponseCommandType::ControlMedia => "CONTROL_MEDIA"@,
            ResponseCommandType::AplRenderTemplate => "APL_RENDER_TEMPLATE"@,
            ResponseCommandType::AplaRenderTemplate => "APLA_RENDER_TEMPLATE"@,
            ResponseCommandType::SetSessionAttribute => "SET_SESSION_ATTRIBUTES"@,
        }
    }

    /// The variant a wire string resolves to, if it is a canonical token.
    pub open spec fn spec_of_token(token: Seq<char>) -> Option<ResponseCommandType> {
        if token == "SEND_EVENT"@ {
            Some(ResponseCommandType::SendEvent)
        } else if token == "CONTROL_MEDIA"@ {
            Some(ResponseCommandType::ControlMedia)
        } else if token == "APL_RENDER_TEMPLATE"@ {
            Some(ResponseCommandType::AplRenderTemplate)
        } else if token == "APLA_RENDER_TEMPLATE"@ {
            Some(ResponseCommandType::AplaRenderTemplate)
        } else if token == "SET_SESSION_ATTRIBUTES"@ {
            Some(ResponseCommandType::SetSessionAttribute)
        } else {
            None
        }
    }

    /// Encode direction: exhaustive over the variants, one token each.
    pub fn token(self) -> (r: &'static str)
        ensures
            r@ == self.spec_token(),
    {
        match self {
            ResponseCommandType::SendEvent => "SEND_EVENT",
            ResponseCommandType::ControlMedia => "CONTROL_MEDIA",
            ResponseCommandType::AplRenderTemplate => "APL_RENDER_TEMPLATE",
            ResponseCommandType::AplaRenderTemplate => "APLA_RENDER_TEMPLATE",
            ResponseCommandType::SetSessionAttribute => "SET_SESSION_ATTRIBUTES",
        }
    }

    /// Decode direction: total over all strings; a string that is no
    /// canonical token resolves to `None` rather than failing.
    pub fn from_token(token: &str) -> (r: Option<ResponseCommandType>)
        ensures
            r == ResponseCommandType::spec_of_token(token@),
    {
        if str_eq(token, "SEND_EVENT") {
            Some(ResponseCommandType::SendEvent)
        } else if str_eq(token, "CONTROL_MEDIA") {
            Some(ResponseCommandType::ControlMedia)
        } else if str_eq(token, "APL_RENDER_TEMPLATE") {
            Some(ResponseCommandType::AplRenderTemplate)
        } else if str_eq(token, "APLA_RENDER_TEMPLATE") {
            Some(ResponseCommandType::AplaRenderTemplate)
        } else if str_eq(token, "SET_SESSION_ATTRIBUTES") {
            Some(ResponseCommandType::SetSessionAttribute)
        } else {
            None
        }
    }
}

/// Law: resolving a variant's own canonical token returns that variant
/// (encode-then-decode round trip).
pub proof fn lemma_command_token_round_trip(c: ResponseCommandType)
    ensures
        ResponseCommandType::spec_of_token(c.spec_token()) == Some(c),
{
    reveal_strlit("SEND_EVENT");
    reveal_strlit("CONTROL_MEDIA");
    reveal_strlit("APL_RENDER_TEMPLATE");
    reveal_strlit("APLA_RENDER_TEMPLATE");
    reveal_strlit("SET_SESSION_ATTRIBUTES");
    assert("SEND_EVENT"@.len() == 10);
    assert("CONTROL_MEDIA"@.len() == 13);
    assert("APL_RENDER_TEMPLATE"@.len() == 19);
    assert("APLA_RENDER_TEMPLATE"@.len() == 20);
    assert("SET_SESSION_ATTRIBUTES"@.len() == 22);
}

/// Law: the canonical token mapping is injective; no two variants share a
/// token.
pub proof fn lemma_command_tokens_injective(a: ResponseCommandType, b: ResponseCommandType)
    requires
        a.spec_token() == b.spec_token(),
    ensures
        a == b,
{
    lemma_command_token_round_trip(a);
    lemma_command_token_round_trip(b);
}

/// One device/session side-effect instruction. The schema does not check
/// which payload slots fit which command kind; that is the constructing
/// caller's business.
#[derive(Debug, PartialEq)]
pub struct ResponseCommand {
    pub command_type: String,
    pub keys: Option<Vec<(String, String)>>,
    pub data: Option<Value>,
    pub list_data: Option<Value>,
    pub random: Option<Value>,
}

/// `v` is the object encoding of the ordered string-keyed mapping `m`: the
/// same entries in the same order, each value a string.
pub open spec fn str_map_value(v: Value, m: Seq<(String, String)>) -> bool {
    match v {
        Value::Obj(entries) => {
            &&& entries@.len() == m.len()
            &&& forall|j: int|
                #![auto]
                0 <= j < m.len() ==> entries@[j].0 == m[j].0 && entries@[j].1 == Value::Str(
                    m[j].1,
                )
        },
        _ => false,
    }
}

/// One when the option is set, else zero: the room a slot takes in the
/// encoded object.
pub open spec fn flag(set: bool) -> int {
    if set {
        1
    } else {
        0
    }
}

/// `r` is the encoded payload of command `c`: an object holding
/// `command_type` first and then, in this order and only when set, `keys`,
/// `data`, `list_data` and `random`; unset slots are omitted, never emitted
/// as null.
pub open spec fn cmd_encoding(c: ResponseCommand, r: Value) -> bool {
    match r {
        Value::Obj(entries) => {
            let fs = entries@;
            let nk = flag(c.keys is Some);
            let nd = flag(c.data is Some);
            let nl = flag(c.list_data is Some);
            &&& fs.len() == 1 + nk + nd + nl + flag(c.random is Some)
            &&& fs[0].0@ == "command_type"@
            &&& fs[0].1 == Value::Str(c.command_type)
            &&& (c.keys matches Some(m) ==> fs[1].0@ == "keys"@ && str_map_value(fs[1].1, m@))
            &&& (c.data matches Some(d) ==> fs[1 + nk].0@ == "data"@ && fs[1 + nk].1 == d)
            &&& (c.list_data matches Some(d) ==> fs[1 + nk + nd].0@ == "list_data"@ && fs[1 + nk
                + nd].1 == d)
            &&& (c.random matches Some(d) ==> fs[1 + nk + nd + nl].0@ == "random"@ && fs[1 + nk + nd
                + nl].1 == d)
        },
        _ => false,
    }
}

/// Encode an ordered string-keyed mapping of strings as an object value,
/// keeping the entry order.
pub(crate) fn encode_str_map(m: Vec<(String, String)>) -> (r: Value)
    ensures
        str_map_value(r, m@),
{
    let ghost orig = m@;
    let mut rest = m;
    let mut entries: Vec<(String, Value)> = Vec::new();
    while rest.len() > 0
        invariant
            entries@.len() + rest@.len() == orig.len(),
            rest@ == orig.subrange(entries@.len() as int, orig.len() as int),
            forall|j: int|
                #![auto]
                0 <= j < entries@.len() ==> entries@[j].0 == orig[j].0 && entries@[j].1
                    == Value::Str(orig[j].1),
        decreases rest.len(),
    {
        let ghost done = entries@.len() as int;
        let (key, val) = rest.remove(0);
        entries.push((key, Value::Str(val)));
        proof {
            assert(rest@ =~= orig.subrange(done + 1, orig.len() as int));
        }
    }
    Value::Obj(entries)
}

impl ResponseCommand {
    /// A command of the given kind with all four payload slots unset.
    pub fn new(command_type: String) -> (r: ResponseCommand)
        ensures
            r.command_type == command_type,
            r.keys is None,
            r.data is None,
            r.list_data is None,
            r.random is None,
    {
        ResponseCommand { command_type, keys: None, data: None, list_data: None, random: None }
    }

    /// Encode this command as one object value, omitting every unset slot.
    pub fn encode(self) -> (r: Value)
        ensures
            cmd_encoding(self, r),
    {
        let ResponseCommand { command_type, keys, data, list_data, random } = self;
        let mut entries: Vec<(String, Value)> = Vec::new();
        entries.push(("command_type".to_owned(), Value::Str(command_type)));
        match keys {
            None => {},
            Some(m) => {
                let encoded = encode_str_map(m);
                entries.push(("keys".to_owned(), encoded));
            },
        }
        match data {
            None => {},
            Some(d) => entries.push(("data".to_owned(), d)),
        }
        match list_data {
            None => {},
            Some(d) => entries.push(("list_data".to_owned(), d)),
        }
        match random {
            None => {},
            Some(d) => entries.push(("random".to_owned(), d)),
        }
        Value::Obj(entries)
    }
}

} // verus!
