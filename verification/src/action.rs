//! Closed classification of one inbound interaction turn, with its canonical
//! wire tokens: every variant has exactly one uppercase token, and any string
//! that is no token resolves to the `Unknown` fallback instead of failing.

use vstd::prelude::*;

use crate::value::str_eq;

verus! {

/// The action a platform event asks the business logic to handle.
#[derive(Debug, Clone, Copy, PartialEq, Eq, Structural)]
pub enum ActionType {
    CustomTask,
    ConnectionsResponse,
    SessionEnd,
    Launch,
    Next,
    Previous,
    Stop,
    Help,
    More,
    FallBack,
    Unknown,
}

impl ActionType {
    /// The canonical uppercase wire token of each variant.
    pub open spec fn spec_token(self) -> Seq<char> {
        match self {
            ActionType::CustomTask => "CUSTOM_TASK"@,
            ActionType::ConnectionsResponse => "CONNECTION_RESPONSE"@,
            ActionType::SessionEnd => "SESSION_END"@,
            ActionType::Launch => "LAUNCH"@,
            ActionType::Next => "NEXT"@,
            ActionType::Previous => "PREVIOUS"@,
            ActionType::Stop => "STOP"@,
            ActionType::Help => "HELP"@,
            ActionType::More => "MORE"@,
            ActionType::FallBack => "FALLBACK"@,
            ActionType::Unknown => "UNKNOWN"@,
        }
    }

    /// The variant a wire string resolves to: a canonical token maps to its
    /// variant, every other string to the `Unknown` fallback.
    pub open spec fn spec_of_token(token: Seq<char>) -> ActionType {
        if token == "CUSTOM_TASK"@ {
            ActionType::CustomTask
        } else if token == "CONNECTION_RESPONSE"@ {
            ActionType::ConnectionsResponse
        } else if token == "SESSION_END"@ {
            ActionType::SessionEnd
        } else if token == "LAUNCH"@ {
            ActionType::Launch
        } else if token == "NEXT"@ {
            ActionType::Next
        } else if token == "PREVIOUS"@ {
            ActionType::Previous
        } else if token == "STOP"@ {
            ActionType::Stop
        } else if token == "HELP"@ {
            ActionType::Help
        } else if token == "MORE"@ {
            ActionType::More
        } else if token == "FALLBACK"@ {
            ActionType::FallBack
        } else {
            ActionType::Unknown
        }
    }

    /// Encode direction: exhaustive over the variants, one token each.
    pub fn token(self) -> (r: &'static str)
        ensures
            r@ == self.spec_token(),
    {
        match self {
            ActionType::CustomTask => "CUSTOM_TASK",
            ActionType::ConnectionsResponse => "CONNECTION_RESPONSE",
            ActionType::SessionEnd => "SESSION_END",
            ActionType::Launch => "LAUNCH",
            ActionType::Next => "NEXT",
            ActionType::Previous => "PREVIOUS",
            ActionType::Stop => "STOP",
            ActionType::Help => "HELP",
            ActionType::More => "MORE",
            ActionType::FallBack => "FALLBACK",
            ActionType::Unknown => "UNKNOWN",
        }
    }

    /// Decode direction: total over all strings, never failing; an
    /// unrecognized token yields `Unknown`.
    pub fn from_token(token: &str) -> (r: ActionType)
        ensures
            r == ActionType::spec_of_token(token@),
    {
        if str_eq(token, "CUSTOM_TASK") {
            ActionType::CustomTask
        } else if str_eq(token, "CONNECTION_RESPONSE") {
            ActionType::ConnectionsResponse
        } else if str_eq(token, "SESSION_END") {
            ActionType::SessionEnd
        } else if str_eq(token, "LAUNCH") {
            ActionType::Launch
        } else if str_eq(token, "NEXT") {
            ActionType::Next
        } else if str_eq(token, "PREVIOUS") {
            ActionType::Previous
        } else if str_eq(token, "STOP") {
            ActionType::Stop
        } else if str_eq(token, "HELP") {
            ActionType::Help
        } else if str_eq(token, "MORE") {
            ActionType::More
        } else if str_eq(token, "FALLBACK") {
            ActionType::FallBack
        } else {
            ActionType::Unknown
        }
    }
}

/// Law: resolving a variant's own canonical token returns that variant
/// (encode-then-decode round trip).
pub proof fn lemma_action_token_round_trip(a: ActionType)
    ensures
        ActionType::spec_of_token(a.spec_token()) == a,
{
    reveal_strlit("CUSTOM_TASK");
    reveal_strlit("CONNECTION_RESPONSE");
    reveal_strlit("SESSION_END");
    reveal_strlit("LAUNCH");
    reveal_strlit("NEXT");
    reveal_strlit("PREVIOUS");
    reveal_strlit("STOP");
    reveal_strlit("HELP");
    reveal_strlit("MORE");
    reveal_strlit("FALLBACK");
    reveal_strlit("UNKNOWN");
    assert("CUSTOM_TASK"@.len() == 11);
    assert("CONNECTION_RESPONSE"@.len() == 19);
    assert("SESSION_END"@.len() == 11);
    assert("LAUNCH"@.len() == 6);
    assert("NEXT"@.len() == 4);
    assert("PREVIOUS"@.len() == 8);
    assert("STOP"@.len() == 4);
    assert("HELP"@.len() == 4);
    assert("MORE"@.len() == 4);
    assert("FALLBACK"@.len() == 8);
    assert("UNKNOWN"@.len() == 7);
    assert("CUSTOM_TASK"@[0] == 'C');
    assert("SESSION_END"@[0] == 'S');
    assert("NEXT"@[0] == 'N');
    assert("STOP"@[0] == 'S');
    assert("HELP"@[0] == 'H');
    assert("MORE"@[0] == 'M');
    assert("PREVIOUS"@[0] == 'P');
    assert("FALLBACK"@[0] == 'F');
}

/// Law: the canonical token mapping is injective; no two variants share a
/// token.
pub proof fn lemma_action_tokens_injective(a: ActionType, b: ActionType)
    requires
        a.spec_token() == b.spec_token(),
    ensures
        a == b,
{
    lemma_action_token_round_trip(a);
    lemma_action_token_round_trip(b);
}

} // verus!
