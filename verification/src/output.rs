//! The mutable response accumulator for one turn: constructed all-unset,
//! populated field by field by the business-logic handler, and encoded once
//! at the end of the turn. An unset field is omitted from the encoded
//! payload, never emitted as null.

use vstd::prelude::*;

use crate::command::ResponseCommand;
use crate::command::cmd_encoding;
use crate::command::flag;
use crate::value::Value;

verus! {

/// The reply to one inbound turn, each field independently optional.
#[derive(Debug, PartialEq)]
pub struct BussinessOutput {
    pub should_end_session: Option<bool>,
    pub prompt_speech: Option<String>,
    pub reprompt_speech: Option<String>,
    pub commands: Option<Vec<ResponseCommand>>,
}

/// `r` is the encoded payload of output `o`: an object holding, in this
/// order and each only when set, `should_end_session`, `prompt_speech`,
/// `reprompt_speech` and `commands`; the commands keep the exact order in
/// which they were appended.
pub open spec fn output_encoding(o: BussinessOutput, r: Value) -> bool {
    match r {
        Value::Obj(entries) => {
            let fs = entries@;
            let ns = flag(o.should_end_session is Some);
            let np = flag(o.prompt_speech is Some);
            let nr = flag(o.reprompt_speech is Some);
            &&& fs.len() == ns + np + nr + flag(o.commands is Some)
            &&& (o.should_end_session matches Some(b) ==> fs[0].0@ == "should_end_session"@
                && fs[0].1 == Value::Bool(b))
            &&& (o.prompt_speech matches Some(p) ==> fs[ns].0@ == "prompt_speech"@ && fs[ns].1
                == Value::Str(p))
            &&& (o.reprompt_speech matches Some(p) ==> fs[ns + np].0@ == "reprompt_speech"@ && fs[ns
                + np].1 == Value::Str(p))
            &&& (o.commands matches Some(cs) ==> fs[ns + np + nr].0@ == "commands"@
                && commands_encoding(cs@, fs[ns + np + nr].1))
        },
        _ => false,
    }
}

/// `r` is the encoded command list of `cs`: an array of the commands'
/// encodings, one each, in the order appended.
pub open spec fn commands_encoding(cs: Seq<ResponseCommand>, r: Value) -> bool {
    match r {
        Value::Arr(items) => {
            &&& items@.len() == cs.len()
            &&& forall|i: int| #![auto] 0 <= i < cs.len() ==> cmd_encoding(cs[i], items@[i])
        },
        _ => false,
    }
}

/// Encode a command list as one array value, keeping the appended order.
fn encode_commands(cs: Vec<ResponseCommand>) -> (r: Value)
    ensures
        commands_encoding(cs@, r),
{
    let ghost orig = cs@;
    let mut rest = cs;
    let mut items: Vec<Value> = Vec::new();
    while rest.len() > 0
        invariant
            items@.len() + rest@.len() == orig.len(),
            rest@ == orig.subrange(items@.len() as int, orig.len() as int),
            forall|i: int| #![auto] 0 <= i < items@.len() ==> cmd_encoding(orig[i], items@[i]),
        decreases rest.len(),
    {
        let ghost done = items@.len() as int;
        let cmd = rest.remove(0);
        items.push(cmd.encode());
        proof {
            assert(rest@ =~= orig.subrange(done + 1, orig.len() as int));
        }
    }
    Value::Arr(items)
}

impl BussinessOutput {
    /// A response accumulator with every field unset.
    pub fn new() -> (r: BussinessOutput)
        ensures
            r.should_end_session is None,
            r.prompt_speech is None,
            r.reprompt_speech is None,
            r.commands is None,
    {
        BussinessOutput {
            should_end_session: None,
            prompt_speech: None,
            reprompt_speech: None,
            commands: None,
        }
    }

    /// Encode this output as one object value: exactly one payload per turn,
    /// with every unset field omitted. Encoding never fails; every reachable
    /// state of the accumulator is encodable.
    pub fn encode(self) -> (r: Value)
        ensures
            output_encoding(self, r),
    {
        let BussinessOutput { should_end_session, prompt_speech, reprompt_speech, commands } = self;
        let mut entries: Vec<(String, Value)> = Vec::new();
        match should_end_session {
            None => {},
            Some(b) => entries.push(("should_end_session".to_owned(), Value::Bool(b))),
        }
        match prompt_speech {
            None => {},
            Some(p) => entries.push(("prompt_speech".to_owned(), Value::Str(p))),
        }
        match reprompt_speech {
            None => {},
            Some(p) => entries.push(("reprompt_speech".to_owned(), Value::Str(p))),
        }
        match commands {
            None => {},
            Some(cs) => {
                let encoded = encode_commands(cs);
                entries.push(("commands".to_owned(), encoded));
            },
        }
        Value::Obj(entries)
    }
}

} // verus!
