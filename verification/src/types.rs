//! Session identity: the (agent, role, mode) triple that names one conversation.
use vstd::prelude::*;
use crate::text::{owned, push_char, push_str, str_eq};

verus! {

/// Runtime mode of a channel: the plain role conversation or one event thread.
#[derive(Debug, Clone, PartialEq, Eq, Hash)]
pub enum Mode {
    Role,
    Event(String),
}

/// Mathematical model of [`Mode`].
pub ghost enum ModeView {
    Role,
    Event(Seq<char>),
}

impl View for Mode {
    type V = ModeView;

    open spec fn view(&self) -> ModeView {
        match self {
            Mode::Role => ModeView::Role,
            Mode::Event(e) => ModeView::Event(e@),
        }
    }
}

/// A conversation's unique identity: agent id, role name and mode.
#[derive(Debug, Clone, PartialEq, Eq, Hash)]
pub struct SessionKey {
    pub agent_id: String,
    pub role_name: String,
    pub mode: Mode,
}

/// Mathematical model of [`SessionKey`].
pub ghost struct SessionKeyView {
    pub agent_id: Seq<char>,
    pub role_name: Seq<char>,
    pub mode: ModeView,
}

impl View for SessionKey {
    type V = SessionKeyView;

    open spec fn view(&self) -> SessionKeyView {
        SessionKeyView { agent_id: self.agent_id@, role_name: self.role_name@, mode: self.mode@ }
    }
}

/// The role encoding used at the memory boundary: `role-event` in event mode, the role alone in role mode.
pub open spec fn spec_role_mode(role_name: Seq<char>, mode: ModeView) -> Seq<char> {
    match mode {
        ModeView::Event(e) => role_name + seq!['-'] + e,
        ModeView::Role => role_name,
    }
}

/// Encodes role and mode as one role name for memory records.
pub fn role_mode(role_name: &str, mode: &Mode) -> (r: String)
    ensures
        r@ == spec_role_mode(role_name@, mode@),
{
    match mode {
        Mode::Event(event_id) => {
            let mut s = owned(role_name);
            push_char(&mut s, '-');
            push_str(&mut s, event_id.as_str());
            proof { r_eq_helper(role_name@, event_id@); }
            s
        },
        Mode::Role => owned(role_name),
    }
}

proof fn r_eq_helper(a: Seq<char>, b: Seq<char>)
    ensures
        a.push('-') + b == a + seq!['-'] + b,
{
    assert(a.push('-') =~= a + seq!['-']);
}

impl Mode {
    /// Equality of two modes by value.
    pub fn same_as(&self, other: &Mode) -> (r: bool)
        ensures
            r == (self@ == other@),
    {
        match (self, other) {
            (Mode::Role, Mode::Role) => true,
            (Mode::Event(a), Mode::Event(b)) => str_eq(a.as_str(), b.as_str()),
            _ => false,
        }
    }
}

impl SessionKey {
    /// Equality of two session keys by value.
    pub fn same_as(&self, other: &SessionKey) -> (r: bool)
        ensures
            r == (self@ == other@),
    {
        str_eq(self.agent_id.as_str(), other.agent_id.as_str())
            && str_eq(self.role_name.as_str(), other.role_name.as_str())
            && self.mode.same_as(&other.mode)
    }
}


/// A messenger identity: the messenger it lives on and the user id there.
#[derive(Debug, Clone, PartialEq, Eq, Hash)]
pub struct ChannelUser {
    pub messenger_id: String,
    pub user_id: String,
}

impl View for ChannelUser {
    type V = (Seq<char>, Seq<char>);

    open spec fn view(&self) -> (Seq<char>, Seq<char>) {
        (self.messenger_id@, self.user_id@)
    }
}

impl ChannelUser {
    /// Equality by value.
    pub fn same_as(&self, other: &ChannelUser) -> (r: bool)
        ensures
            r == (self@ == other@),
    {
        str_eq(self.messenger_id.as_str(), other.messenger_id.as_str())
            && str_eq(self.user_id.as_str(), other.user_id.as_str())
    }

    /// A copy equal to `self`.
    pub fn duplicate(&self) -> (r: ChannelUser)
        ensures
            r == *self,
    {
        ChannelUser { messenger_id: self.messenger_id.clone(), user_id: self.user_id.clone() }
    }
}

/// A copy of an optional string.
pub fn clone_opt(o: &Option<String>) -> (r: Option<String>)
    ensures
        r == *o,
{
    match o {
        Some(s) => Some(s.clone()),
        None => None,
    }
}

impl Mode {
    /// A copy equal to `self`.
    pub fn duplicate(&self) -> (r: Mode)
        ensures
            r == *self,
    {
        match self {
            Mode::Role => Mode::Role,
            Mode::Event(e) => Mode::Event(e.clone()),
        }
    }
}

impl SessionKey {
    /// A copy equal to `self`.
    pub fn duplicate(&self) -> (r: SessionKey)
        ensures
            r == *self,
    {
        SessionKey { agent_id: self.agent_id.clone(), role_name: self.role_name.clone(), mode: self.mode.duplicate() }
    }
}

} // verus!
