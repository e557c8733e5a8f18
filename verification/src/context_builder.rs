//! The rolling conversation context: messages kept for the model, the system message, and
//! the recently sent texts used to recognise echoes of the agent's own messages.
use vstd::prelude::*;
use crate::text::{owned, push_str, str_eq};

verus! {

/// Messages kept before a reset is due.
pub const MAX_CONTEXT_MESSAGES: usize = 100;

/// Sent texts remembered for echo recognition.
pub const SENT_CONTENTS_CAPACITY: usize = 64;

/// One entry of the context (tool parameters and results as their JSON text).
#[derive(Debug, Clone)]
pub enum ContextMessage {
    User { content: String, time: String },
    Assistant { content: String, time: String },
    ToolCall { tool_name: String, parameters: String, time: String },
    ToolResult { tool_name: String, result: String, time: String },
}

/// Mathematical model of [`ContextMessage`].
pub ghost enum ContextMessageView {
    User { content: Seq<char>, time: Seq<char> },
    Assistant { content: Seq<char>, time: Seq<char> },
    ToolCall { tool_name: Seq<char>, parameters: Seq<char>, time: Seq<char> },
    ToolResult { tool_name: Seq<char>, result: Seq<char>, time: Seq<char> },
}

impl View for ContextMessage {
    type V = ContextMessageView;

    open spec fn view(&self) -> ContextMessageView {
        match self {
            ContextMessage::User { content, time } => ContextMessageView::User { content: content@, time: time@ },
            ContextMessage::Assistant { content, time } => ContextMessageView::Assistant { content: content@, time: time@ },
            ContextMessage::ToolCall { tool_name, parameters, time } => ContextMessageView::ToolCall {
                tool_name: tool_name@,
                parameters: parameters@,
                time: time@,
            },
            ContextMessage::ToolResult { tool_name, result, time } => ContextMessageView::ToolResult {
                tool_name: tool_name@,
                result: result@,
                time: time@,
            },
        }
    }
}

/// One message as sent to the model: its role and its text.
#[derive(Debug, Clone)]
pub struct MessageItem {
    pub role: String,
    pub content: String,
}

impl View for MessageItem {
    type V = (Seq<char>, Seq<char>);

    open spec fn view(&self) -> (Seq<char>, Seq<char>) {
        (self.role@, self.content@)
    }
}

/// The model message for a context entry: user and assistant texts as they are; a tool call
/// as an assistant line `工具调用: name (parameters)`; a tool result as a user line
/// `工具 name 返回: result`.
pub open spec fn item_of(m: ContextMessageView) -> (Seq<char>, Seq<char>) {
    match m {
        ContextMessageView::User { content, .. } => ("user"@, content),
        ContextMessageView::Assistant { content, .. } => ("assistant"@, content),
        ContextMessageView::ToolCall { tool_name, parameters, .. } => (
            "assistant"@,
            "工具调用: "@ + tool_name + " ("@ + parameters + ")"@,
        ),
        ContextMessageView::ToolResult { tool_name, result, .. } => ("user"@, "工具 "@ + tool_name + " 返回: "@ + result),
    }
}

/// The model messages of a context: the system message first when set, then each entry in order.
pub open spec fn built_items(system: Option<Seq<char>>, msgs: Seq<ContextMessageView>) -> Seq<(Seq<char>, Seq<char>)> {
    let head = match system {
        Some(s) => seq![("system"@, s)],
        None => Seq::empty(),
    };
    head + msgs.map_values(|m: ContextMessageView| item_of(m))
}

/// The remembered texts after sending `c`: the oldest is forgotten when the memory is full.
pub open spec fn remembered(sent: Seq<Seq<char>>, c: Seq<char>) -> Seq<Seq<char>> {
    (if sent.len() >= SENT_CONTENTS_CAPACITY { sent.drop_first() } else { sent }).push(c)
}

/// The conversation context of one session.
pub struct ContextBuilder {
    messages: Vec<ContextMessage>,
    system_message: Option<String>,
    sent_contents: Vec<String>,
}

/// Mathematical model of [`ContextBuilder`].
pub ghost struct ContextBuilderView {
    pub messages: Seq<ContextMessageView>,
    pub system_message: Option<Seq<char>>,
    pub sent_contents: Seq<Seq<char>>,
}

impl View for ContextBuilder {
    type V = ContextBuilderView;

    closed spec fn view(&self) -> ContextBuilderView {
        ContextBuilderView {
            messages: self.messages@.map_values(|m: ContextMessage| m@),
            system_message: match self.system_message {
                Some(s) => Some(s@),
                None => None,
            },
            sent_contents: self.sent_contents@.map_values(|s: String| s@),
        }
    }
}

/// The item for one context entry (see [`item_of`]).
fn item_for(m: &ContextMessage) -> (r: MessageItem)
    ensures
        r@ == item_of(m@),
{
    match m {
        ContextMessage::User { content, .. } => MessageItem { role: owned("user"), content: content.clone() },
        ContextMessage::Assistant { content, .. } => MessageItem { role: owned("assistant"), content: content.clone() },
        ContextMessage::ToolCall { tool_name, parameters, .. } => {
            let mut c = owned("工具调用: ");
            push_str(&mut c, tool_name.as_str());
            push_str(&mut c, " (");
            push_str(&mut c, parameters.as_str());
            push_str(&mut c, ")");
            MessageItem { role: owned("assistant"), content: c }
        },
        ContextMessage::ToolResult { tool_name, result, .. } => {
            let mut c = owned("工具 ");
            push_str(&mut c, tool_name.as_str());
            push_str(&mut c, " 返回: ");
            push_str(&mut c, result.as_str());
            MessageItem { role: owned("user"), content: c }
        },
    }
}

impl ContextBuilder {
    /// An empty context: no messages, no system message, nothing sent.
    pub fn new() -> (r: ContextBuilder)
        ensures
            r@.messages.len() == 0,
            r@.system_message is None,
            r@.sent_contents.len() == 0,
    {
        ContextBuilder { messages: Vec::new(), system_message: None, sent_contents: Vec::new() }
    }

    /// Sets the system message.
    pub fn set_system_message(&mut self, content: String)
        ensures
            final(self)@ == (ContextBuilderView { system_message: Some(content@), ..old(self)@ }),
    {
        self.system_message = Some(content);
    }

    /// Replaces the messages by `messages`, in order.
    pub fn load_history(&mut self, messages: Vec<ContextMessage>)
        ensures
            final(self)@ == (ContextBuilderView {
                messages: messages@.map_values(|m: ContextMessage| m@),
                ..old(self)@
            }),
    {
        self.messages = messages;
    }

    /// Appends a message.
    pub fn push_user_message(&mut self, msg: ContextMessage)
        ensures
            final(self)@ == (ContextBuilderView { messages: old(self)@.messages.push(msg@), ..old(self)@ }),
    {
        let ghost before = self.messages@;
        self.messages.push(msg);
        assert(self.messages@.map_values(|m: ContextMessage| m@) =~= before.map_values(|m: ContextMessage| m@).push(msg@));
    }

    /// Appends an assistant reply.
    pub fn push_assistant(&mut self, content: String, time: String)
        ensures
            final(self)@ == (ContextBuilderView {
                messages: old(self)@.messages.push(ContextMessageView::Assistant { content: content@, time: time@ }),
                ..old(self)@
            }),
    {
        self.push_user_message(ContextMessage::Assistant { content, time });
    }

    /// Appends a tool call (parameters as their JSON text).
    pub fn push_tool_call(&mut self, tool_name: String, parameters: String, time: String)
        ensures
            final(self)@ == (ContextBuilderView {
                messages: old(self)@.messages.push(ContextMessageView::ToolCall {
                    tool_name: tool_name@,
                    parameters: parameters@,
                    time: time@,
                }),
                ..old(self)@
            }),
    {
        self.push_user_message(ContextMessage::ToolCall { tool_name, parameters, time });
    }

    /// Appends a tool result (as its JSON text).
    pub fn push_tool_result(&mut self, tool_name: String, result: String, time: String)
        ensures
            final(self)@ == (ContextBuilderView {
                messages: old(self)@.messages.push(ContextMessageView::ToolResult {
                    tool_name: tool_name@,
                    result: result@,
                    time: time@,
                }),
                ..old(self)@
            }),
    {
        self.push_user_message(ContextMessage::ToolResult { tool_name, result, time });
    }

    /// Remembers a sent text (see [`remembered`]).
    pub fn record_sent_content(&mut self, content: String)
        ensures
            final(self)@ == (ContextBuilderView { sent_contents: remembered(old(self)@.sent_contents, content@), ..old(self)@ }),
    {
        let ghost before = self.sent_contents@;
        let ghost cv = content@;
        if self.sent_contents.len() >= SENT_CONTENTS_CAPACITY {
            let _ = self.sent_contents.remove(0);
            assert(self.sent_contents@.map_values(|s: String| s@) =~= before.map_values(|s: String| s@).drop_first());
        }
        let ghost mid = self.sent_contents@;
        self.sent_contents.push(content);
        assert(self.sent_contents@.map_values(|s: String| s@) =~= mid.map_values(|s: String| s@).push(cv));
    }

    /// Whether `content` is one of the remembered sent texts.
    pub fn is_self_echo(&self, content: &str) -> (r: bool)
        ensures
            r == self@.sent_contents.contains(content@),
    {
        let ghost sv = self@.sent_contents;
        let mut i: usize = 0;
        while i < self.sent_contents.len()
            invariant
                i <= self.sent_contents.len(),
                sv == self@.sent_contents,
                sv.len() == self.sent_contents@.len(),
                forall|j: int| 0 <= j < self.sent_contents@.len() ==> #[trigger] sv[j] == self.sent_contents@[j]@,
                forall|j: int| 0 <= j < i ==> sv[j] != content@,
            decreases self.sent_contents.len() - i,
        {
            if str_eq(self.sent_contents[i].as_str(), content) {
                assert(sv[i as int] == content@);
                return true;
            }
            i = i + 1;
        }
        false
    }

    /// The messages for the model (see [`built_items`]).
    pub fn build(&self) -> (r: Vec<MessageItem>)
        ensures
            r@.map_values(|m: MessageItem| m@) == built_items(self@.system_message, self@.messages),
    {
        let mut items: Vec<MessageItem> = Vec::new();
        if let Some(system) = &self.system_message {
            items.push(MessageItem { role: owned("system"), content: system.clone() });
        }
        let ghost head = items@.map_values(|m: MessageItem| m@);
        assert(head =~= match self@.system_message {
            Some(s) => seq![("system"@, s)],
            None => Seq::<(Seq<char>, Seq<char>)>::empty(),
        });
        let ghost mv = self@.messages;
        let mut i: usize = 0;
        while i < self.messages.len()
            invariant
                i <= self.messages.len(),
                mv == self@.messages,
                mv.len() == self.messages@.len(),
                forall|j: int| 0 <= j < self.messages@.len() ==> #[trigger] mv[j] == self.messages@[j]@,
                items@.map_values(|m: MessageItem| m@) =~= head + mv.subrange(0, i as int).map_values(|m: ContextMessageView| item_of(m)),
            decreases self.messages.len() - i,
        {
            let ghost before = items@;
            items.push(item_for(&self.messages[i]));
            assert(items@.map_values(|m: MessageItem| m@) =~= before.map_values(|m: MessageItem| m@).push(item_of(mv[i as int])));
            assert(mv.subrange(0, i + 1).map_values(|m: ContextMessageView| item_of(m))
                =~= mv.subrange(0, i as int).map_values(|m: ContextMessageView| item_of(m)).push(item_of(mv[i as int])));
            i = i + 1;
        }
        assert(mv.subrange(0, self.messages.len() as int) =~= mv);
        items
    }

    /// Whether the context has reached its size limit.
    pub fn is_overflow(&self) -> (r: bool)
        ensures
            r == (self@.messages.len() >= MAX_CONTEXT_MESSAGES),
    {
        self.messages.len() >= MAX_CONTEXT_MESSAGES
    }

    /// Forgets the messages (the system message and the sent texts stay).
    pub fn clear(&mut self)
        ensures
            final(self)@ == (ContextBuilderView { messages: Seq::empty(), ..old(self)@ }),
    {
        self.messages = Vec::new();
        assert(self@.messages =~= Seq::<ContextMessageView>::empty());
    }
}

} // verus!
