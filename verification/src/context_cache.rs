//! Where a session's context is cached and archived, and how a cached context is restored
//! to a consistent state.
use vstd::prelude::*;
use crate::json::JsonView;
use crate::message::{msgs_view, Message, MessageView};
use crate::text::{owned, push_char, push_str};
use crate::types::{Mode, ModeView, SessionKey, SessionKeyView};

verus! {

broadcast use vstd::std_specs::vec::group_vec_axioms;

// ---------- paths ----------

/// `base` joined with the relative component `name`: `name` alone when `base` is empty,
/// without a second separator when `base` already ends with one.
pub open spec fn path_join(base: Seq<char>, name: Seq<char>) -> Seq<char> {
    if base.len() == 0 {
        name
    } else if base.last() == '/' {
        base + name
    } else {
        base + seq!['/'] + name
    }
}

/// Joins `name` under `base` (see [`path_join`]).
pub fn join_path(base: &str, name: &str) -> (r: String)
    ensures
        r@ == path_join(base@, name@),
{
    let v = crate::text::chars_of(base);
    let mut r = owned(base);
    if v.len() > 0 && v[v.len() - 1] != '/' {
        push_char(&mut r, '/');
    }
    push_str(&mut r, name);
    proof {
        if base@.len() > 0 && base@.last() != '/' {
            assert(r@ =~= base@ + seq!['/'] + name@);
        }
    }
    r
}

// ---------- session key encoding ----------

/// The text encoded for a session key: `agent|role|role` or `agent|role|event:<id>`.
pub open spec fn raw_session_key(k: SessionKeyView) -> Seq<char> {
    k.agent_id + seq!['|'] + k.role_name + seq!['|'] + match k.mode {
        ModeView::Role => "role"@,
        ModeView::Event(e) => "event:"@ + e,
    }
}

/// The lowercase hexadecimal digit of `n` (below 16).
pub open spec fn hex_digit(n: u8) -> char {
    if n < 10 { ((48 + n) as u8) as char } else { ((87 + n) as u8) as char }
}

/// Each byte as two lowercase hexadecimal digits.
pub open spec fn hex_bytes(b: Seq<u8>) -> Seq<char>
    decreases b.len(),
{
    if b.len() == 0 {
        Seq::empty()
    } else {
        hex_bytes(b.drop_last()) + seq![hex_digit(b.last() / 16), hex_digit(b.last() % 16)]
    }
}

/// Whether `c` is a lowercase hexadecimal digit.
pub open spec fn is_hex_digit(c: char) -> bool {
    ('0' <= c && c <= '9') || ('a' <= c && c <= 'f')
}

/// The hexadecimal digit of `n`.
fn hex_char(n: u8) -> (r: char)
    requires
        n < 16,
    ensures
        r == hex_digit(n),
        is_hex_digit(r),
{
    if n < 10 {
        (48u8 + n) as char
    } else {
        (87u8 + n) as char
    }
}

/// The file-name-safe encoding of a session key: the UTF-8 bytes of its text (see
/// [`raw_session_key`]) in lowercase hexadecimal. It holds hexadecimal digits only.
pub fn encode_session_key(key: &SessionKey) -> (r: String)
    ensures
        r@ == hex_bytes(vstd::utf8::encode_utf8(raw_session_key(key@))),
        forall|i: int| 0 <= i < r@.len() ==> is_hex_digit(#[trigger] r@[i]),
{
    let mut raw = key.agent_id.clone();
    push_char(&mut raw, '|');
    push_str(&mut raw, key.role_name.as_str());
    push_char(&mut raw, '|');
    match &key.mode {
        Mode::Role => push_str(&mut raw, "role"),
        Mode::Event(e) => {
            push_str(&mut raw, "event:");
            push_str(&mut raw, e.as_str());
        },
    }
    assert(raw@ =~= raw_session_key(key@));
    let bytes = raw.as_str().as_bytes();
    let mut out = String::new();
    let mut i: usize = 0;
    while i < bytes.len()
        invariant
            i <= bytes@.len(),
            bytes@ == vstd::utf8::encode_utf8(raw_session_key(key@)),
            out@ == hex_bytes(bytes@.subrange(0, i as int)),
            forall|j: int| 0 <= j < out@.len() ==> is_hex_digit(#[trigger] out@[j]),
        decreases bytes.len() - i,
    {
        let b = bytes[i];
        let hi = hex_char(b / 16);
        let lo = hex_char(b % 16);
        let ghost before = out@;
        push_char(&mut out, hi);
        push_char(&mut out, lo);
        assert(bytes@.subrange(0, i + 1).drop_last() =~= bytes@.subrange(0, i as int));
        assert(out@ =~= before + seq![hi, lo]);
        i = i + 1;
    }
    assert(bytes@.subrange(0, bytes@.len() as int) =~= bytes@);
    out
}

/// Where session contexts are cached: `<data_dir>/context/<encoded key>.jsonl`.
#[derive(Debug, Clone)]
pub struct ContextCache {
    pub dir: String,
}

impl ContextCache {
    /// The cache under `data_dir`.
    pub fn new(data_dir: &str) -> (r: ContextCache)
        ensures
            r.dir@ == path_join(data_dir@, "context"@),
    {
        ContextCache { dir: join_path(data_dir, "context") }
    }

    /// The cache file of `key`.
    pub fn path_for(&self, key: &SessionKey) -> (r: String)
        ensures
            r@ == path_join(self.dir@, hex_bytes(vstd::utf8::encode_utf8(raw_session_key(key@))) + ".jsonl"@),
    {
        let mut name = encode_session_key(key);
        push_str(&mut name, ".jsonl");
        join_path(self.dir.as_str(), name.as_str())
    }
}

/// Where contexts are archived: `<data_dir>/context-history/<encoded key>-<timestamp>.jsonl`.
#[derive(Debug, Clone)]
pub struct HistoryArchive {
    pub dir: String,
}

impl HistoryArchive {
    /// The archive under `data_dir`.
    pub fn new(data_dir: &str) -> (r: HistoryArchive)
        ensures
            r.dir@ == path_join(data_dir@, "context-history"@),
    {
        HistoryArchive { dir: join_path(data_dir, "context-history") }
    }

    /// The archive file of `key` made at `timestamp`.
    pub fn path_for(&self, key: &SessionKey, timestamp: &str) -> (r: String)
        ensures
            r@ == path_join(self.dir@, hex_bytes(vstd::utf8::encode_utf8(raw_session_key(key@))) + "-"@ + timestamp@ + ".jsonl"@),
    {
        let mut name = encode_session_key(key);
        push_str(&mut name, "-");
        push_str(&mut name, timestamp);
        push_str(&mut name, ".jsonl");
        join_path(self.dir.as_str(), name.as_str())
    }
}

// ---------- restoring a cached context ----------

/// Whether `m` is an assistant message that asked for tools.
pub open spec fn is_dangling_call(m: MessageView) -> bool {
    m matches MessageView::Assistant(_, _, calls) && !(calls is Null)
}

/// `ms` without its leading tool messages.
pub open spec fn drop_leading_tools(ms: Seq<MessageView>) -> Seq<MessageView>
    decreases ms.len(),
{
    if ms.len() > 0 && ms[0] is Tool {
        drop_leading_tools(ms.drop_first())
    } else {
        ms
    }
}

/// A cached context made consistent: a final assistant message that asked for tools (whose
/// answers were never written) is dropped, then the tool messages at the start are dropped.
pub open spec fn sanitized(ms: Seq<MessageView>) -> Seq<MessageView> {
    let trimmed = if ms.len() > 0 && is_dangling_call(ms.last()) { ms.drop_last() } else { ms };
    drop_leading_tools(trimmed)
}

/// Whether `m` is a tool message.
fn is_tool(m: &Message) -> (r: bool)
    ensures
        r == (m@ is Tool),
{
    match m {
        Message::Tool { .. } => true,
        _ => false,
    }
}

/// Makes a cached context consistent (see [`sanitized`]).
pub fn sanitize_recovered(msgs: Vec<Message>) -> (r: Vec<Message>)
    ensures
        msgs_view(r@) == sanitized(msgs_view(msgs@)),
{
    let mut msgs = msgs;
    let ghost orig = msgs_view(msgs@);
    let n = msgs.len();
    if n > 0 {
        let dangling = match &msgs[n - 1] {
            Message::Assistant { tool_calls, .. } => !tool_calls.is_null(),
            _ => false,
        };
        if dangling {
            let ghost before = msgs@;
            let _ = msgs.pop();
            assert(msgs_view(msgs@) =~= msgs_view(before).drop_last());
        }
    }
    let ghost trimmed = msgs_view(msgs@);
    assert(trimmed == (if orig.len() > 0 && is_dangling_call(orig.last()) { orig.drop_last() } else { orig }));
    let mut k: usize = 0;
    assert(trimmed.subrange(0, trimmed.len() as int) =~= trimmed);
    while k < msgs.len() && is_tool(&msgs[k])
        invariant
            k <= msgs.len(),
            trimmed == msgs_view(msgs@),
            drop_leading_tools(trimmed) == drop_leading_tools(trimmed.subrange(k as int, trimmed.len() as int)),
        decreases msgs.len() - k,
    {
        let ghost rest = trimmed.subrange(k as int, trimmed.len() as int);
        assert(rest.drop_first() =~= trimmed.subrange(k + 1, trimmed.len() as int));
        k = k + 1;
    }
    let mut out: Vec<Message> = Vec::new();
    let mut j: usize = k;
    while j < msgs.len()
        invariant
            k <= j <= msgs.len(),
            trimmed == msgs_view(msgs@),
            msgs_view(out@) =~= trimmed.subrange(k as int, j as int),
        decreases msgs.len() - j,
    {
        let ghost before = out@;
        out.push(msgs[j].duplicate());
        assert(msgs_view(out@) =~= msgs_view(before).push(msgs@[j as int]@));
        assert(trimmed[j as int] == msgs@[j as int]@);
        assert(trimmed.subrange(k as int, j + 1) =~= trimmed.subrange(k as int, j as int).push(trimmed[j as int]));
        j = j + 1;
    }
    let ghost rest = trimmed.subrange(k as int, trimmed.len() as int);
    assert(!(rest.len() > 0 && rest[0] is Tool));
    out
}

} // verus!
