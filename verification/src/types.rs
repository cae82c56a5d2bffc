//! Core data types: validated newtypes, the request (`ToolCall`), the rule
//! outcome (`Action`), and the answer (`Decision`).

use vstd::prelude::*;

use crate::error::{GateError, GateErrorView};

verus! {

/// Non-empty, and nothing but ASCII lowercase letters, digits and `-`.
pub open spec fn is_agent_name(s: Seq<char>) -> bool {
    &&& s.len() > 0
    &&& forall|i: int| 0 <= i < s.len() ==> is_agent_name_char(#[trigger] s[i])
}

/// An ASCII lowercase letter, a digit or `-`.
pub open spec fn is_agent_name_char(c: char) -> bool {
    'a' <= c <= 'z' || '0' <= c <= '9' || c == '-'
}

/// A validated agent name, e.g. `"code-helper"`. Every `AgentName` is known to
/// be good, so nothing that takes one checks it again.
#[derive(Debug, PartialEq, Eq, Hash)]
pub struct AgentName(String);

impl View for AgentName {
    type V = Seq<char>;

    closed spec fn view(&self) -> Seq<char> {
        self.0@
    }
}

impl AgentName {
    #[verifier::type_invariant]
    spec fn is_valid(self) -> bool {
        is_agent_name(self.0@)
    }

    pub fn as_str(&self) -> (r: &str)
        ensures
            r@ == self@,
            is_agent_name(r@),
    {
        proof {
            use_type_invariant(self);
        }
        self.0.as_str()
    }
}

impl Clone for AgentName {
    fn clone(&self) -> (r: Self)
        ensures
            r == *self,
    {
        proof {
            use_type_invariant(self);
        }
        AgentName(self.0.clone())
    }
}

impl TryFrom<String> for AgentName {
    type Error = GateError;

    fn try_from(s: String) -> (r: Result<Self, Self::Error>)
        ensures
            match r {
                Ok(name) => is_agent_name(s@) && name@ == s@,
                Err(e) => !is_agent_name(s@) && e@ == GateErrorView::InvalidAgent(s@),
            },
    {
        if is_name(s.as_str()) {
            Ok(AgentName(s))
        } else {
            Err(GateError::InvalidAgent(s))
        }
    }
}

impl vstd::std_specs::convert::TryFromSpecImpl<String> for AgentName {
    open spec fn obeys_try_from_spec() -> bool {
        true
    }

    closed spec fn try_from_spec(s: String) -> Result<Self, GateError> {
        if is_agent_name(s@) {
            Ok(AgentName(s))
        } else {
            Err(GateError::InvalidAgent(s))
        }
    }
}

impl std::str::FromStr for AgentName {
    type Err = GateError;

    fn from_str(s: &str) -> (r: Result<Self, Self::Err>)
        ensures
            match r {
                Ok(name) => is_agent_name(s@) && name@ == s@,
                Err(e) => !is_agent_name(s@) && e@ == GateErrorView::InvalidAgent(s@),
            },
    {
        AgentName::try_from(s.to_owned())
    }
}

/// The test behind `AgentName::try_from`.
fn is_name(s: &str) -> (r: bool)
    ensures
        r == is_agent_name(s@),
{
    if s.is_empty() {
        return false;
    }
    for c in it: s.chars()
        invariant
            forall|i: int| 0 <= i < it.index() ==> is_agent_name_char(#[trigger] s@[i]),
            it.seq() == s@,
    {
        if !(('a' <= c && c <= 'z') || ('0' <= c && c <= '9') || c == '-') {
            return false;
        }
    }
    true
}

/// A validated, non-empty session id (request metadata, for the trace). "No
/// session" is expressed by omitting the field; an empty text is malformed.
#[derive(Debug, PartialEq, Eq, Hash)]
pub struct SessionId(String);

impl View for SessionId {
    type V = Seq<char>;

    closed spec fn view(&self) -> Seq<char> {
        self.0@
    }
}

impl SessionId {
    #[verifier::type_invariant]
    spec fn is_valid(self) -> bool {
        self.0@.len() > 0
    }
}

impl Clone for SessionId {
    fn clone(&self) -> (r: Self)
        ensures
            r == *self,
    {
        proof {
            use_type_invariant(self);
        }
        SessionId(self.0.clone())
    }
}

impl TryFrom<String> for SessionId {
    type Error = GateError;

    fn try_from(s: String) -> (r: Result<Self, Self::Error>)
        ensures
            match r {
                Ok(id) => s@.len() > 0 && id@ == s@,
                Err(e) => s@.len() == 0 && e@ == GateErrorView::InvalidSession(s@),
            },
    {
        if s.as_str().is_empty() {
            Err(GateError::InvalidSession(s))
        } else {
            Ok(SessionId(s))
        }
    }
}

impl vstd::std_specs::convert::TryFromSpecImpl<String> for SessionId {
    open spec fn obeys_try_from_spec() -> bool {
        true
    }

    closed spec fn try_from_spec(s: String) -> Result<Self, GateError> {
        if s@.len() > 0 {
            Ok(SessionId(s))
        } else {
            Err(GateError::InvalidSession(s))
        }
    }
}

/// A rule's identifier: its index in the policy.
#[derive(Debug, Clone, Copy, PartialEq, Eq, Structural)]
pub struct RuleId(pub u32);

/// A secret text. It can be read through [`AdminKey::expose`] alone, and has
/// no `Debug`; [`AdminKey::redacted`] stands in for it in logs.
pub struct AdminKey(String);

impl View for AdminKey {
    type V = Seq<char>;

    /// The secret.
    closed spec fn view(&self) -> Seq<char> {
        self.0@
    }
}

impl Clone for AdminKey {
    fn clone(&self) -> (r: Self)
        ensures
            r == *self,
    {
        AdminKey(self.0.clone())
    }
}

impl AdminKey {
    pub fn new(s: String) -> (r: Self)
        ensures
            r@ == s@,
    {
        AdminKey(s)
    }

    /// Borrow the raw secret. Kept explicit so every read site is auditable.
    pub fn expose(&self) -> (r: &str)
        ensures
            r@ == self@,
    {
        self.0.as_str()
    }

    /// What a log may show of a key: the same for every key.
    pub fn redacted(&self) -> (r: String)
        ensures
            r@ == "AdminKey(***)"@,
    {
        "AdminKey(***)".to_owned()
    }
}

/// The secret of a key, if there is one.
pub open spec fn key_of(admin_key: Option<AdminKey>) -> Option<Seq<char>> {
    match admin_key {
        Some(key) => Some(key@),
        None => None,
    }
}

/// The tool call an agent wants to make (the request).
#[derive(Debug, Clone)]
pub struct ToolCall {
    pub tool: String,
    pub command: String,
    pub agent: AgentName,
    pub session: Option<SessionId>,
}

/// A [`ToolCall`] with its texts as sequences of characters.
pub struct ToolCallView {
    pub tool: Seq<char>,
    pub command: Seq<char>,
    pub agent: Seq<char>,
    pub session: Option<Seq<char>>,
}

impl View for ToolCall {
    type V = ToolCallView;

    open spec fn view(&self) -> ToolCallView {
        ToolCallView {
            tool: self.tool@,
            command: self.command@,
            agent: self.agent@,
            session: match self.session {
                Some(id) => Some(id@),
                None => None,
            },
        }
    }
}

/// A rule's outcome. `Action` is what a rule declares; [`Decision`] is what
/// the warden answers, with a reason in words.
#[derive(Debug, Clone, Copy, PartialEq, Eq, Structural)]
pub enum Action {
    Allow,
    Deny,
    Ask,
}

/// The verdict on a tool call.
#[derive(Debug, Clone, PartialEq, Eq)]
pub enum Decision {
    Allow,
    Deny { reason: String },
    Ask { reason: String },
}

/// A [`Decision`] with its reason as a sequence of characters.
pub enum DecisionView {
    Allow,
    Deny { reason: Seq<char> },
    Ask { reason: Seq<char> },
}

impl View for Decision {
    type V = DecisionView;

    open spec fn view(&self) -> DecisionView {
        match *self {
            Decision::Allow => DecisionView::Allow,
            Decision::Deny { reason } => DecisionView::Deny { reason: reason@ },
            Decision::Ask { reason } => DecisionView::Ask { reason: reason@ },
        }
    }
}

/// Agent names are made of the code points of `a` to `z`, `0` to `9` and `-`,
/// one at least; every text of these is one.
pub proof fn law_agent_name_characters(s: Seq<char>)
    ensures
        is_agent_name(s) <==> s.len() > 0 && forall|i: int|
            0 <= i < s.len() ==> {
                ||| 97 <= (#[trigger] s[i]) as int <= 122
                ||| 48 <= s[i] as int <= 57
                ||| s[i] as int == 45
            },
{
}

/// Two agent names in a row are one, and so is every part of one that is not
/// empty.
pub proof fn law_agent_names_join_and_split(a: Seq<char>, b: Seq<char>)
    requires
        a.len() > 0,
        b.len() > 0,
    ensures
        is_agent_name(a + b) <==> is_agent_name(a) && is_agent_name(b),
{
    if is_agent_name(a + b) {
        assert forall|i: int| 0 <= i < a.len() implies is_agent_name_char(#[trigger] a[i]) by {
            assert((a + b)[i] == a[i]);
        }
        assert forall|i: int| 0 <= i < b.len() implies is_agent_name_char(#[trigger] b[i]) by {
            assert((a + b)[a.len() + i] == b[i]);
        }
    }
}

/// The model of a call holds its texts, each in its place.
pub proof fn law_model_of_a_call(call: ToolCall)
    ensures
        call@.tool == call.tool@,
        call@.command == call.command@,
        call@.agent == call.agent@,
        match call.session {
            Some(id) => call@.session == Some(id@),
            None => call@.session is None,
        },
{
}

/// The model of a decision is of the same kind, with the same reason.
pub proof fn law_model_of_a_decision(decision: Decision)
    ensures
        match decision {
            Decision::Allow => decision@ is Allow,
            Decision::Deny { reason } => decision@ == (DecisionView::Deny { reason: reason@ }),
            Decision::Ask { reason } => decision@ == (DecisionView::Ask { reason: reason@ }),
        },
{
}

/// The secret of a key is the text it was made of, and there is one just where
/// there is a key.
pub proof fn law_secret_of_a_key(admin_key: Option<AdminKey>)
    ensures
        match admin_key {
            Some(key) => key_of(admin_key) == Some(key@),
            None => key_of(admin_key) is None,
        },
{
}

} // verus!
