//! A session's context in memory: the messages, the system message in use and the one
//! waiting to replace it, and the names of the files the context is cached and archived in.
use vstd::prelude::*;
use crate::context_cache::{join_path, path_join, sanitize_recovered, sanitized};
use crate::message::{msgs_view, Message, MessageView};
use crate::text::{owned, push_str, str_eq};
use crate::types::{Mode, ModeView, SessionKey, SessionKeyView};

verus! {

broadcast use vstd::std_specs::vec::group_vec_axioms;

/// The file name stem of a session: `agent-role`, or `agent-role-event` in event mode.
pub open spec fn key_stem(k: SessionKeyView) -> Seq<char> {
    match k.mode {
        ModeView::Role => k.agent_id + "-"@ + k.role_name,
        ModeView::Event(e) => k.agent_id + "-"@ + k.role_name + "-"@ + e,
    }
}

/// The model messages of a context: the system message first when there is one.
pub open spec fn with_system(system: Option<Seq<char>>, ms: Seq<MessageView>) -> Seq<MessageView> {
    match system {
        Some(s) => seq![MessageView::System(s)] + ms,
        None => ms,
    }
}

/// The context of one session.
pub struct SessionContext {
    messages: Vec<Message>,
    system_message: Option<String>,
    pending_system: Option<String>,
    data_dir: String,
    key_enc: String,
}

/// Mathematical model of [`SessionContext`].
pub ghost struct SessionContextView {
    pub messages: Seq<MessageView>,
    pub system_message: Option<Seq<char>>,
    pub pending_system: Option<Seq<char>>,
    pub data_dir: Seq<char>,
    pub key_enc: Seq<char>,
}

/// The model of an optional string.
pub open spec fn opt_seq(o: Option<String>) -> Option<Seq<char>> {
    match o {
        Some(s) => Some(s@),
        None => None,
    }
}

impl View for SessionContext {
    type V = SessionContextView;

    closed spec fn view(&self) -> SessionContextView {
        SessionContextView {
            messages: msgs_view(self.messages@),
            system_message: opt_seq(self.system_message),
            pending_system: opt_seq(self.pending_system),
            data_dir: self.data_dir@,
            key_enc: self.key_enc@,
        }
    }
}

impl SessionContext {
    /// An empty context of session `key`, cached under `data_dir`.
    pub fn new(data_dir: &str, key: &SessionKey) -> (r: SessionContext)
        ensures
            r@.messages.len() == 0,
            r@.system_message is None,
            r@.pending_system is None,
            r@.data_dir == data_dir@,
            r@.key_enc == key_stem(key@),
    {
        let mut key_enc = key.agent_id.clone();
        push_str(&mut key_enc, "-");
        push_str(&mut key_enc, key.role_name.as_str());
        match &key.mode {
            Mode::Role => {},
            Mode::Event(e) => {
                push_str(&mut key_enc, "-");
                push_str(&mut key_enc, e.as_str());
            },
        }
        let r = SessionContext {
            messages: Vec::new(),
            system_message: None,
            pending_system: None,
            data_dir: owned(data_dir),
            key_enc,
        };
        assert(msgs_view(r.messages@) =~= Seq::<MessageView>::empty());
        r
    }

    /// The cache file: `<data_dir>/context/<stem>.jsonl`.
    pub fn cache_path(&self) -> (r: String)
        ensures
            r@ == path_join(path_join(self@.data_dir, "context"@), self@.key_enc + ".jsonl"@),
    {
        let dir = join_path(self.data_dir.as_str(), "context");
        let mut name = self.key_enc.clone();
        push_str(&mut name, ".jsonl");
        join_path(dir.as_str(), name.as_str())
    }

    /// The archive directory: `<data_dir>/context-history`.
    pub fn history_dir(&self) -> (r: String)
        ensures
            r@ == path_join(self@.data_dir, "context-history"@),
    {
        join_path(self.data_dir.as_str(), "context-history")
    }

    /// The archive file made at `timestamp`: `<data_dir>/context-history/<stem>-<timestamp>.jsonl`.
    pub fn history_path(&self, timestamp: &str) -> (r: String)
        ensures
            r@ == path_join(path_join(self@.data_dir, "context-history"@), self@.key_enc + "-"@ + timestamp@ + ".jsonl"@),
    {
        let dir = self.history_dir();
        let mut name = self.key_enc.clone();
        push_str(&mut name, "-");
        push_str(&mut name, timestamp);
        push_str(&mut name, ".jsonl");
        join_path(dir.as_str(), name.as_str())
    }

    /// Records a system message to use from the next send on (a later one replaces it).
    pub fn set_system_message(&mut self, content: String)
        ensures
            final(self)@ == (SessionContextView { pending_system: Some(content@), ..old(self)@ }),
    {
        self.pending_system = Some(content);
    }

    /// Takes the waiting system message: returns it when it differs from the one in use
    /// (the caller archives the context, then installs it); none when nothing waits or it
    /// is the same. Nothing waits afterwards.
    pub fn take_pending_system(&mut self) -> (r: Option<String>)
        ensures
            final(self)@ == (SessionContextView { pending_system: None, ..old(self)@ }),
            opt_seq(r) == (match old(self)@.pending_system {
                Some(p) => if old(self)@.system_message == Some(p) { None } else { Some(p) },
                None => None,
            }),
    {
        match self.pending_system.take() {
            Some(p) => {
                let same = match &self.system_message {
                    Some(s) => str_eq(s.as_str(), p.as_str()),
                    None => false,
                };
                if same { None } else { Some(p) }
            },
            None => None,
        }
    }

    /// Puts `content` in use as the system message.
    pub fn install_system_message(&mut self, content: String)
        ensures
            final(self)@ == (SessionContextView { system_message: Some(content@), ..old(self)@ }),
    {
        self.system_message = Some(content);
    }

    /// Appends messages to the context.
    pub fn append(&mut self, messages: Vec<Message>)
        ensures
            final(self)@ == (SessionContextView { messages: old(self)@.messages + msgs_view(messages@), ..old(self)@ }),
    {
        let ghost before = self.messages@;
        let mut more = messages;
        let ghost added = more@;
        self.messages.append(&mut more);
        assert(msgs_view(self.messages@) =~= msgs_view(before) + msgs_view(added));
    }

    /// Replaces the messages (the system messages stay).
    pub fn reset_messages(&mut self, messages: Vec<Message>)
        ensures
            final(self)@ == (SessionContextView { messages: msgs_view(messages@), ..old(self)@ }),
    {
        self.messages = messages;
    }

    /// Restores from the cache lines (in file order): a leading system line is the system
    /// message in use; the rest is made consistent (see [`sanitized`]).
    pub fn restore(&mut self, lines: Vec<Message>)
        ensures
            lines@.len() > 0 && lines@[0]@ is System ==> final(self)@ == (SessionContextView {
                system_message: Some(lines@[0]@->System_0),
                messages: sanitized(msgs_view(lines@).drop_first()),
                ..old(self)@
            }),
            !(lines@.len() > 0 && lines@[0]@ is System) ==> final(self)@ == (SessionContextView {
                messages: sanitized(msgs_view(lines@)),
                ..old(self)@
            }),
    {
        let mut lines = lines;
        let ghost all = msgs_view(lines@);
        if lines.len() > 0 {
            let first = lines.remove(0);
            match first {
                Message::System { content } => {
                    assert(msgs_view(lines@) =~= all.drop_first());
                    self.system_message = Some(content);
                },
                other => {
                    lines.insert(0, other);
                    assert(msgs_view(lines@) =~= all);
                },
            }
        }
        self.messages = sanitize_recovered(lines);
    }

    /// Restores when there is no cache file: nothing in the context, no system message.
    pub fn restore_missing(&mut self)
        ensures
            final(self)@ == (SessionContextView { messages: Seq::empty(), system_message: None, ..old(self)@ }),
    {
        self.messages = Vec::new();
        self.system_message = None;
        assert(msgs_view(self.messages@) =~= Seq::<MessageView>::empty());
    }

    /// Whether the context holds no messages.
    pub fn is_empty(&self) -> (r: bool)
        ensures
            r == (self@.messages.len() == 0),
    {
        self.messages.len() == 0
    }

    /// The messages for the model (and the lines of an archive): the system message in use
    /// first, then the context.
    pub fn build(&self) -> (r: Vec<Message>)
        ensures
            msgs_view(r@) == with_system(self@.system_message, self@.messages),
    {
        let mut items: Vec<Message> = Vec::new();
        if let Some(system) = &self.system_message {
            items.push(Message::System { content: system.clone() });
        }
        let ghost head = msgs_view(items@);
        let mut i: usize = 0;
        while i < self.messages.len()
            invariant
                i <= self.messages.len(),
                msgs_view(items@) =~= head + msgs_view(self.messages@).subrange(0, i as int),
            decreases self.messages.len() - i,
        {
            let ghost before = items@;
            items.push(self.messages[i].duplicate());
            assert(msgs_view(items@) =~= msgs_view(before).push(self.messages@[i as int]@));
            i = i + 1;
        }
        assert(msgs_view(self.messages@).subrange(0, self.messages.len() as int) =~= msgs_view(self.messages@));
        items
    }

    /// The system line that starts a new cache file, when a system message is in use.
    pub fn system_line(&self) -> (r: Option<Message>)
        ensures
            match self@.system_message {
                Some(s) => r matches Some(m) && m@ == MessageView::System(s),
                None => r is None,
            },
    {
        match &self.system_message {
            Some(s) => Some(Message::System { content: s.clone() }),
            None => None,
        }
    }
}

} // verus!
