//! Chat messages, message content parts, and the packing of remembered and batched
//! channel records into a model conversation.
use vstd::prelude::*;
use crate::json::{Json, JsonView};
use crate::text::{join_lines, join_newline, owned, push_str, strs_view, is_empty_str};

verus! {

broadcast use vstd::std_specs::vec::group_vec_axioms;

/// Content of a channel message (the parts the agent distinguishes).
#[derive(Debug)]
pub enum Content {
    Text(String),
    Multi(Vec<Content>),
    Think(String),
    ToolCall(String),
    ToolResult(String),
    GroupJoin,
    GroupLeave,
    UserRemove,
    /// Attachments and other notices the agent carries but does not read.
    Other,
}

/// The text segments of `c`: a `Text` gives itself, a `Multi` its parts' segments in order
/// (at any depth), every other content none.
pub open spec fn text_parts(c: Content) -> Seq<Seq<char>>
    decreases c, 1int,
{
    match c {
        Content::Text(t) => seq![t@],
        Content::Multi(items) => text_parts_list(items@),
        _ => Seq::empty(),
    }
}

/// The text segments of a list of contents, in order.
pub open spec fn text_parts_list(s: Seq<Content>) -> Seq<Seq<char>>
    decreases s, 0int,
{
    if s.len() == 0 {
        Seq::empty()
    } else {
        text_parts_list(s.subrange(0, s.len() - 1)) + text_parts(s[s.len() - 1])
    }
}

/// Appends the text segments of `content` to `parts` (recursively through `Multi`).
#[verifier::loop_isolation(false)]
pub fn collect_text_parts(content: &Content, parts: &mut Vec<String>)
    ensures
        strs_view(final(parts)@) == strs_view(old(parts)@) + text_parts(*content),
    decreases content,
{
    match content {
        Content::Text(t) => {
            parts.push(t.clone());
            assert(strs_view(parts@) =~= strs_view(old(parts)@) + text_parts(*content));
        },
        Content::Multi(items) => {
            let ghost start = strs_view(parts@);
            let mut i: usize = 0;
            while i < items.len()
                invariant
                    i <= items.len(),
                    strs_view(parts@) == start + text_parts_list(items@.subrange(0, i as int)),
                decreases items.len() - i,
            {
                proof {
                    assert(decreases_to!(*content => *items));
                    assert(decreases_to!(items => items@));
                    assert(decreases_to!(items@ => items@[i as int]));
                    let s1 = items@.subrange(0, i + 1);
                    assert(s1.subrange(0, s1.len() - 1) =~= items@.subrange(0, i as int));
                }
                collect_text_parts(&items[i], parts);
                proof {
                    let s1 = items@.subrange(0, i + 1);
                    assert(s1[s1.len() - 1] == items@[i as int]);
                    assert(strs_view(parts@) =~= start + text_parts_list(s1));
                }
                i = i + 1;
            }
            assert(items@.subrange(0, items.len() as int) =~= items@);
        },
        _ => {
            assert(strs_view(parts@) =~= strs_view(old(parts)@) + text_parts(*content));
        },
    }
}

/// A chat message in the wire shape of the OpenAI-compatible API.
#[derive(Debug)]
pub enum Message {
    System { content: String },
    User { content: String },
    Assistant { content: Json, reasoning_content: Json, tool_calls: Json },
    Tool { tool_call_id: String, content: String },
}

/// Mathematical model of [`Message`].
pub ghost enum MessageView {
    System(Seq<char>),
    User(Seq<char>),
    Assistant(JsonView, JsonView, JsonView),
    Tool(Seq<char>, Seq<char>),
}

impl View for Message {
    type V = MessageView;

    open spec fn view(&self) -> MessageView {
        match self {
            Message::System { content } => MessageView::System(content@),
            Message::User { content } => MessageView::User(content@),
            Message::Assistant { content, reasoning_content, tool_calls } => MessageView::Assistant(
                content@,
                reasoning_content@,
                tool_calls@,
            ),
            Message::Tool { tool_call_id, content } => MessageView::Tool(tool_call_id@, content@),
        }
    }
}

/// The models of a sequence of messages.
pub open spec fn msgs_view(v: Seq<Message>) -> Seq<MessageView> {
    v.map_values(|m: Message| m@)
}

/// An assistant message whose content is the text `t` and which carries nothing else.
pub open spec fn assistant_text(t: Seq<char>) -> MessageView {
    MessageView::Assistant(JsonView::Str(t), JsonView::Null, JsonView::Null)
}

impl Message {
    /// A copy with the same model.
    pub fn duplicate(&self) -> (r: Message)
        ensures
            r@ == self@,
    {
        match self {
            Message::System { content } => Message::System { content: content.clone() },
            Message::User { content } => Message::User { content: content.clone() },
            Message::Assistant { content, reasoning_content, tool_calls } => Message::Assistant {
                content: content.duplicate(),
                reasoning_content: reasoning_content.duplicate(),
                tool_calls: tool_calls.duplicate(),
            },
            Message::Tool { tool_call_id, content } => Message::Tool {
                tool_call_id: tool_call_id.clone(),
                content: content.clone(),
            },
        }
    }

    /// The assistant message holding only the text `text`.
    pub fn assistant_with_text(text: String) -> (r: Message)
        ensures
            r@ == assistant_text(text@),
    {
        Message::Assistant { content: Json::Str(text), reasoning_content: Json::Null, tool_calls: Json::Null }
    }
}

/// A channel record reduced to what the context needs: the speaker's name, the text
/// segments (one per `Text` part; empty for non-text records), and whether the agent spoke.
#[derive(Debug, Clone)]
pub struct MessageContent {
    pub user_name: String,
    pub content: Vec<String>,
    pub is_self: bool,
}

/// Mathematical model of [`MessageContent`].
pub ghost struct MessageContentView {
    pub user_name: Seq<char>,
    pub content: Seq<Seq<char>>,
    pub is_self: bool,
}

impl View for MessageContent {
    type V = MessageContentView;

    open spec fn view(&self) -> MessageContentView {
        MessageContentView { user_name: self.user_name@, content: strs_view(self.content@), is_self: self.is_self }
    }
}

impl MessageContent {
    /// A copy with the same model.
    pub fn duplicate(&self) -> (r: MessageContent)
        ensures
            r@ == self@,
    {
        MessageContent { user_name: self.user_name.clone(), content: copy_strings(&self.content), is_self: self.is_self }
    }
}

/// A copy of a list of strings.
pub fn copy_strings(v: &Vec<String>) -> (r: Vec<String>)
    ensures
        r@ == v@,
{
    let mut out: Vec<String> = Vec::new();
    let mut i: usize = 0;
    while i < v.len()
        invariant
            i <= v.len(),
            out@ == v@.subrange(0, i as int),
        decreases v.len() - i,
    {
        out.push(v[i].clone());
        assert(v@.subrange(0, i + 1) =~= v@.subrange(0, i as int).push(v@[i as int]));
        i = i + 1;
    }
    assert(v@.subrange(0, v.len() as int) =~= v@);
    out
}

/// The models of a sequence of records.
pub open spec fn contents_view(v: Seq<MessageContent>) -> Seq<MessageContentView> {
    v.map_values(|m: MessageContent| m@)
}

/// Builds the record view of one stored record: the name, the text parts of `content`,
/// and `is_self > 0`.
pub fn extract_content(user_name: &String, is_self: usize, content: &Content) -> (r: MessageContent)
    ensures
        r@ == (MessageContentView { user_name: user_name@, content: text_parts(*content), is_self: is_self > 0 }),
{
    let mut parts: Vec<String> = Vec::new();
    collect_text_parts(content, &mut parts);
    assert(strs_view(Seq::<String>::empty()) =~= Seq::<Seq<char>>::empty());
    MessageContent { user_name: user_name.clone(), content: parts, is_self: is_self > 0 }
}

/// One line of user speech: the text alone when the name is empty, else `name: text`.
pub open spec fn spec_user_line(user_name: Seq<char>, text: Seq<char>) -> Seq<char> {
    if user_name.len() == 0 {
        text
    } else {
        user_name + seq![':', ' '] + text
    }
}

/// The line for a speaker `user_name` saying `text`.
pub fn user_line(user_name: &str, text: &str) -> (r: String)
    ensures
        r@ == spec_user_line(user_name@, text@),
{
    if is_empty_str(user_name) {
        owned(text)
    } else {
        let mut s = owned(user_name);
        push_str(&mut s, ": ");
        proof { reveal_strlit(": "); }
        push_str(&mut s, text);
        s
    }
}

/// The line a record contributes to its message: agent speech as its text alone,
/// other speech as a user line.
pub open spec fn record_line(m: MessageContentView) -> Seq<char> {
    if m.is_self {
        join_lines(m.content)
    } else {
        spec_user_line(m.user_name, join_lines(m.content))
    }
}

/// The records that take part in the conversation: those with text, from the first
/// record not spoken by the agent onward.
pub open spec fn kept_records(s: Seq<MessageContentView>) -> Seq<MessageContentView>
    decreases s.len(),
{
    if s.len() == 0 {
        Seq::empty()
    } else {
        let r = kept_records(s.drop_last());
        let m = s.last();
        if m.content.len() == 0 || (r.len() == 0 && m.is_self) {
            r
        } else {
            r.push(m)
        }
    }
}

/// Maximal runs of records with the same speaker side: each run is (spoken by the agent, its lines).
pub open spec fn speaker_runs(s: Seq<MessageContentView>) -> Seq<(bool, Seq<Seq<char>>)>
    decreases s.len(),
{
    if s.len() == 0 {
        Seq::empty()
    } else {
        let r = speaker_runs(s.drop_last());
        let m = s.last();
        if r.len() > 0 && r.last().0 == m.is_self {
            r.update(r.len() - 1, (m.is_self, r.last().1.push(record_line(m))))
        } else {
            r.push((m.is_self, seq![record_line(m)]))
        }
    }
}

/// The message of one run: agent runs become assistant text, other runs user text.
pub open spec fn run_message(run: (bool, Seq<Seq<char>>)) -> MessageView {
    if run.0 {
        assistant_text(join_lines(run.1))
    } else {
        MessageView::User(join_lines(run.1))
    }
}

/// The alternating conversation packed from remembered records: one message per run,
/// and an empty assistant message after a final user run.
pub open spec fn packed_memory(ms: Seq<MessageContentView>) -> Seq<MessageView> {
    let runs = speaker_runs(kept_records(ms));
    let body = runs.map_values(|r: (bool, Seq<Seq<char>>)| run_message(r));
    if runs.len() > 0 && !runs.last().0 {
        body.push(assistant_text(Seq::empty()))
    } else {
        body
    }
}

/// The message for the run `lines` spoken by the agent (`is_asst`) or by others.
fn flush_run(is_asst: bool, lines: &Vec<String>) -> (r: Message)
    ensures
        r@ == run_message((is_asst, strs_view(lines@))),
{
    let text = join_newline(lines);
    if is_asst {
        Message::assistant_with_text(text)
    } else {
        Message::User { content: text }
    }
}

/// The line a record contributes (see [`record_line`]).
fn line_of(m: &MessageContent) -> (r: String)
    ensures
        r@ == record_line(m@),
{
    let text = join_newline(&m.content);
    if m.is_self {
        text
    } else {
        user_line(m.user_name.as_str(), text.as_str())
    }
}

/// Packs remembered records into alternating user / assistant messages: records without
/// text are skipped, agent records before the first other speaker are dropped, consecutive
/// records of the same side merge into one message (user lines as `name: text`, agent lines
/// as text), and a final user message is followed by an empty assistant message.
pub fn pack_memory_messages(msgs: &Vec<MessageContent>) -> (out: Vec<Message>)
    ensures
        msgs_view(out@) == packed_memory(contents_view(msgs@)),
{
    let ghost views = contents_view(msgs@);
    let mut out: Vec<Message> = Vec::new();
    let mut buf: Vec<String> = Vec::new();
    let mut is_asst = false;
    let mut started = false;
    let mut i: usize = 0;
    while i < msgs.len()
        invariant
            i <= msgs.len(),
            views == contents_view(msgs@),
            ({
                let runs = speaker_runs(kept_records(views.take(i as int)));
                &&& started == (runs.len() > 0)
                &&& started ==> is_asst == runs.last().0 && strs_view(buf@) == runs.last().1
                &&& started ==> msgs_view(out@) == runs.drop_last().map_values(|r: (bool, Seq<Seq<char>>)| run_message(r))
                &&& !started ==> out@.len() == 0
            }),
        decreases msgs.len() - i,
    {
        let m = &msgs[i];
        let ghost prefix = views.take(i as int);
        let ghost next = views.take(i + 1);
        let ghost old_runs = speaker_runs(kept_records(prefix));
        let ghost old_out = msgs_view(out@);
        proof {
            assert(next.drop_last() =~= prefix);
            assert(next.last() == m@);
        }
        if m.content.len() == 0 {
            proof {
                assert(kept_records(next) == kept_records(prefix));
            }
        } else if !started && m.is_self {
            proof {
                assert(kept_records(next) == kept_records(prefix));
            }
        } else {
            let line = line_of(m);
            let ghost k = kept_records(prefix);
            proof {
                assert(kept_records(next) == k.push(m@));
                assert(k.push(m@).drop_last() =~= k);
                assert(k.push(m@).last() == m@);
            }
            if !started {
                buf = Vec::new();
                buf.push(line);
                is_asst = m.is_self;
                started = true;
                proof {
                    let nr = speaker_runs(k.push(m@));
                    assert(nr == old_runs.push((m@.is_self, seq![record_line(m@)])));
                    assert(strs_view(buf@) =~= seq![record_line(m@)]);
                    assert(nr.drop_last() =~= old_runs);
                    assert(msgs_view(out@) =~= nr.drop_last().map_values(|r: (bool, Seq<Seq<char>>)| run_message(r)));
                }
            } else if m.is_self == is_asst {
                let ghost old_buf = strs_view(buf@);
                buf.push(line);
                proof {
                    let nr = speaker_runs(k.push(m@));
                    assert(nr == old_runs.update(old_runs.len() - 1, (m@.is_self, old_runs.last().1.push(record_line(m@)))));
                    assert(strs_view(buf@) =~= old_buf.push(record_line(m@)));
                    assert(nr.drop_last() =~= old_runs.drop_last());
                }
            } else {
                let msg = flush_run(is_asst, &buf);
                out.push(msg);
                buf = Vec::new();
                buf.push(line);
                is_asst = m.is_self;
                proof {
                    let nr = speaker_runs(k.push(m@));
                    assert(nr == old_runs.push((m@.is_self, seq![record_line(m@)])));
                    assert(strs_view(buf@) =~= seq![record_line(m@)]);
                    assert(nr.drop_last() =~= old_runs);
                    assert(old_runs =~= old_runs.drop_last().push(old_runs.last()));
                    assert(msgs_view(out@) =~= old_out.push(run_message(old_runs.last())));
                    assert(msgs_view(out@) =~= nr.drop_last().map_values(|r: (bool, Seq<Seq<char>>)| run_message(r)));
                }
            }
        }
        i = i + 1;
    }
    proof {
        assert(views.take(msgs.len() as int) =~= views);
    }
    let ghost runs = speaker_runs(kept_records(views));
    if started {
        let ghost old_out = msgs_view(out@);
        let msg = flush_run(is_asst, &buf);
        out.push(msg);
        proof {
            assert(runs =~= runs.drop_last().push(runs.last()));
            assert(msgs_view(out@) =~= old_out.push(run_message(runs.last())));
            assert(msgs_view(out@) =~= runs.map_values(|r: (bool, Seq<Seq<char>>)| run_message(r)));
        }
        if !is_asst {
            let ghost before = msgs_view(out@);
            out.push(Message::assistant_with_text(String::new()));
            assert(msgs_view(out@) =~= before.push(assistant_text(Seq::empty())));
        }
    } else {
        assert(msgs_view(out@) =~= packed_memory(views));
    }
    out
}


/// One message received from a channel.
#[derive(Debug)]
pub struct IncomingMessage {
    pub msg_id: String,
    pub messenger_id: String,
    pub user_id: String,
    pub group_id: String,
    pub messenger_name: String,
    pub user_name: String,
    pub group_name: String,
    pub content: Content,
    pub time: String,
}

/// A received message together with the identity that received it.
#[derive(Debug)]
pub struct IncomingMessageEvent {
    pub recipient_user_id: String,
    pub incoming_message: IncomingMessage,
}

/// The user lines of a batch: one per event that carries text, `name: text` or the text alone.
pub open spec fn batch_lines(evs: Seq<IncomingMessageEvent>) -> Seq<Seq<char>>
    decreases evs.len(),
{
    if evs.len() == 0 {
        Seq::empty()
    } else {
        let r = batch_lines(evs.drop_last());
        let m = evs.last().incoming_message;
        let parts = text_parts(m.content);
        if parts.len() == 0 {
            r
        } else {
            r.push(spec_user_line(m.user_name@, join_lines(parts)))
        }
    }
}

/// Packs a batch of received events into one user message: each event with text gives one
/// line (`name: text`, or the text when the name is empty), events without text are skipped,
/// lines are joined by newlines.
pub fn pack_batch(events: &Vec<IncomingMessageEvent>) -> (r: Message)
    ensures
        r@ == MessageView::User(join_lines(batch_lines(events@))),
{
    let mut lines: Vec<String> = Vec::new();
    let mut i: usize = 0;
    while i < events.len()
        invariant
            i <= events.len(),
            strs_view(lines@) == batch_lines(events@.take(i as int)),
        decreases events.len() - i,
    {
        let e = &events[i];
        let mc = extract_content(&e.incoming_message.user_name, 0, &e.incoming_message.content);
        proof {
            assert(events@.take(i + 1).drop_last() =~= events@.take(i as int));
        }
        if mc.content.len() > 0 {
            let text = join_newline(&mc.content);
            let line = user_line(mc.user_name.as_str(), text.as_str());
            let ghost before = strs_view(lines@);
            lines.push(line);
            assert(strs_view(lines@) =~= before.push(line@));
        }
        i = i + 1;
    }
    assert(events@.take(events.len() as int) =~= events@);
    Message::User { content: join_newline(&lines) }
}

} // verus!
