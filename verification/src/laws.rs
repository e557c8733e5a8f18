//! Properties that hold across the library's operations.
use vstd::prelude::*;
use crate::batching::{spec_next_deadline, spec_should_flush};
use crate::channel::{channel_or_new, channel_session, fresh, ChannelView};
use crate::key_change::{given_or, keyed_channels, keyed_repo};
use crate::context_builder::{remembered, SENT_CONTENTS_CAPACITY};
use crate::context_cache::{drop_leading_tools, hex_bytes, hex_digit, is_dangling_call, raw_session_key, sanitized};
use crate::effective::SessionConfigField;
use crate::memory_reader::{count_not_after, insert_by_time, recent_window, time_sorted, MemoryMsgView};
use crate::message::{kept_records, packed_memory, record_line, run_message, speaker_runs, MessageContentView, MessageView};
use crate::nexus_repo::{with_session_value, session_value, NexusRepoView, ProviderModelConfigView};
use crate::order::{lemma_text_lt_irreflexive, lemma_text_lt_total, lemma_text_lt_transitive, text_le, text_lt};
use crate::memory_reader::StoredRecord;
use crate::recent::{absorb_all, absorbed, count_below, has_key, key_lt, keys_ascending, record_entry};
use crate::session_context::with_system;
use crate::types::{ModeView, SessionKeyView};
use crate::command::{spec_command, CommandView};
use crate::configs::{DEFAULT_CHANNEL_BATCH_INTERVAL_SECS, DEFAULT_COMPRESS_PROMPT, DEFAULT_MEMORY_COUNT, DEFAULT_MEMORY_TIME_SECS};
use crate::context_config::{merged_context, AgentContextConfig, RoleContextConfig};
use crate::ego::{ego_parts, identity_md, individual_recognition_md, matched_names, prompt_parts, role_play_md, AgentMetadata, IndividualRecognition, RolePlay};
use crate::json::{spec_as_str, spec_get, JsonView};
use crate::provider::{anthropic_messages, first_block, get2, role_content, spec_model_ids, spec_tool_calls, system_texts, ToolCallView};
use crate::configs::{llm_layered, LLMConfig};
use crate::think::{close_tag, find_from, open_tag, spec_strip_think};
use crate::text::{is_ws, trim_start};
use crate::nexus_repo::{updated_channel, ChannelConfigView, ChannelUpdate};
use crate::types::ChannelUser;
use crate::effective::{llm_merged_by, opt_view, EffectiveLLMConfigView};
use crate::nexus_repo::{effective_model, DEFAULT_RETRY_COUNT, DEFAULT_TIMEOUT_SECS};
use crate::text::strs_view;

verus! {

/// A session reads back the value it cached: after a value of kind `C` is cached for `key`,
/// that value is what the session uses, and caching it again changes nothing.
pub proof fn lemma_session_value_cached<C: SessionConfigField>(r: NexusRepoView, key: SessionKeyView, v: <C::Effective as View>::V)
    ensures
        session_value::<C>(with_session_value::<C>(r, key, v), key) == v,
        with_session_value::<C>(with_session_value::<C>(r, key, v), key, v) == with_session_value::<C>(r, key, v),
{
    let m = if r.sessions.dom().contains(key) { r.sessions[key] } else { crate::effective::empty_session_view() };
    C::lemma_slot_after_put(m, v);
    C::lemma_put_twice(m, v, v);
    let r1 = with_session_value::<C>(r, key, v);
    assert(r1.sessions[key] == C::with_session_slot(m, v));
    assert(r1.sessions.insert(key, C::with_session_slot(r1.sessions[key], v)) =~= r1.sessions);
}

/// A session override is read back merged: after `set_session_config(key, c)` the session
/// uses its earlier value with `c` merged over it; other sessions keep theirs.
pub proof fn lemma_session_override_read_back<C: SessionConfigField>(r: NexusRepoView, key: SessionKeyView, c: C::V, other: SessionKeyView)
    requires
        other != key,
    ensures
        session_value::<C>(with_session_value::<C>(r, key, C::merged_by(session_value::<C>(r, key), c)), key)
            == C::merged_by(session_value::<C>(r, key), c),
        session_value::<C>(with_session_value::<C>(r, key, C::merged_by(session_value::<C>(r, key), c)), other)
            == session_value::<C>(r, other),
{
    lemma_session_value_cached::<C>(r, key, C::merged_by(session_value::<C>(r, key), c));
}

/// Adding a provider under a new name and removing it again restores the providers.
pub proof fn lemma_provider_add_remove(providers: Map<Seq<char>, ProviderModelConfigView>, name: Seq<char>, cfg: ProviderModelConfigView)
    requires
        !providers.dom().contains(name),
    ensures
        providers.insert(name, cfg).remove(name) == providers,
        providers.insert(name, cfg).dom().contains(name),
{
    assert(providers.insert(name, cfg).remove(name) =~= providers);
}

/// Granting an identity the administrator right and withdrawing it again restores the
/// administrators, when the identity was not one before.
pub proof fn lemma_admin_grant_withdraw(admins: Set<(Seq<char>, Seq<char>)>, u: (Seq<char>, Seq<char>))
    requires
        !admins.contains(u),
    ensures
        admins.insert(u).remove(u) == admins,
        admins.insert(u).contains(u),
{
    assert(admins.insert(u).remove(u) =~= admins);
}

/// A changed channel key is where the channel's messages go: after the agent, role or mode
/// of a channel is changed, the channel leads to the session the change returned, and every
/// other channel still leads to the session it led to before.
pub proof fn lemma_key_change_routes(
    r: NexusRepoView,
    c: Map<Seq<char>, ChannelView>,
    id: Seq<char>,
    agent_id: Option<Seq<char>>,
    role_name: Option<Seq<char>>,
    mode: Option<ModeView>,
    other: Seq<char>,
)
    requires
        r.channels.dom().contains(id),
    ensures
        ({
            let a = given_or(agent_id, r.channels[id].agent_id);
            let n = given_or(role_name, r.channels[id].role_name);
            let md = match mode { Some(x) => x, None => channel_or_new(c, id).mode };
            channel_session(keyed_repo(r, id, a, n), keyed_channels(c, id, mode), id)
                == (SessionKeyView { agent_id: a, role_name: n, mode: md })
        }),
        other != id && r.channels.dom().contains(other) ==> channel_session(
            keyed_repo(r, id, given_or(agent_id, r.channels[id].agent_id), given_or(role_name, r.channels[id].role_name)),
            keyed_channels(c, id, mode),
            other,
        ) == channel_session(r, c, other),
{
}

/// A sent message id is recognised once: right after it is remembered it is present (so
/// its echo is consumed), and once consumed it is gone (a second echo is not consumed).
pub proof fn lemma_pending_consumed_once(c: ChannelView, msg_id: Seq<char>, ttl: u64, now: u64)
    ensures
        fresh(c.pending, ttl, now).insert(msg_id, now).dom().contains(msg_id),
        !fresh(c.pending, ttl, now).insert(msg_id, now).remove(msg_id).dom().contains(msg_id),
{
}

/// A remembered id at least `ttl` old is forgotten by an eviction; a younger one stays.
pub proof fn lemma_evict_by_age(m: Map<Seq<char>, u64>, k: Seq<char>, ttl: u64, now: u64)
    requires
        m.dom().contains(k),
    ensures
        fresh(m, ttl, now).dom().contains(k) <==> crate::channel::elapsed(m[k], now) < ttl,
{
}

/// The send deadline of a batch only moves later while it is set, and a requested
/// deadline is never the "no deadline" value.
pub proof fn lemma_deadline_monotone(cur: u64, at: u64)
    ensures
        spec_next_deadline(cur, at) != 0,
        cur != 0 ==> spec_next_deadline(cur, at) >= cur,
        spec_next_deadline(cur, at) >= at,
{
}

/// A forced check always sends; without a deadline an unforced check never does.
pub proof fn lemma_flush_rule(deadline: u64, now: u64)
    ensures
        spec_should_flush(true, deadline, now),
        !spec_should_flush(false, 0, now),
{
}

/// The remembered sent texts stay within their capacity, and the text just sent is among them.
pub proof fn lemma_sent_memory_bounded(sent: Seq<Seq<char>>, c: Seq<char>)
    requires
        sent.len() <= SENT_CONTENTS_CAPACITY,
    ensures
        remembered(sent, c).len() <= SENT_CONTENTS_CAPACITY,
        remembered(sent, c).contains(c),
{
    assert(remembered(sent, c).last() == c);
}

/// A restored context never starts with a tool message.
pub proof fn lemma_restored_starts_with_no_tool(ms: Seq<MessageView>)
    ensures
        sanitized(ms).len() > 0 ==> !(sanitized(ms)[0] is Tool),
{
    let trimmed = if ms.len() > 0 && crate::context_cache::is_dangling_call(ms.last()) { ms.drop_last() } else { ms };
    lemma_drop_leading_tools(trimmed);
}

/// A consistent context is read back as it was written: a context that does not start with a
/// tool message and does not end with an assistant message asking for tools is left unchanged
/// by the repair applied on restore (see [`sanitized`]).
pub proof fn lemma_consistent_context_kept(ms: Seq<MessageView>)
    requires
        !(ms.len() > 0 && ms[0] is Tool),
        !(ms.len() > 0 && is_dangling_call(ms.last())),
    ensures
        sanitized(ms) == ms,
{
}

/// Appended messages are read back after what was there: when the context `before` followed by
/// the appended `ms` does not start with a tool message and does not end with an assistant
/// message asking for tools, restoring it gives `before` followed by `ms`.
pub proof fn lemma_append_reads_back(before: Seq<MessageView>, ms: Seq<MessageView>)
    requires
        !((before + ms).len() > 0 && (before + ms)[0] is Tool),
        !((before + ms).len() > 0 && is_dangling_call((before + ms).last())),
    ensures
        sanitized(before + ms) == before + ms,
{
    lemma_consistent_context_kept(before + ms);
}

/// A context is read back from its cache as it was: the cache holds the context's system
/// line (see `SessionContext::system_line`) followed by the messages in the order they were
/// appended (see `SessionContext::append`). When those messages do not start with a tool
/// message and do not end with an assistant message asking for tools, restoring the cache's
/// lines (see `SessionContext::restore`) gives back the system message and every message,
/// the appended ones after those that were there.
pub proof fn lemma_cache_restores_context(system: Seq<char>, before: Seq<MessageView>, appended: Seq<MessageView>)
    requires
        !((before + appended).len() > 0 && (before + appended)[0] is Tool),
        !((before + appended).len() > 0 && is_dangling_call((before + appended).last())),
    ensures
        ({
            let lines = with_system(Some(system), before) + appended;
            &&& lines.len() > 0 && lines[0] is System
            &&& lines[0]->System_0 == system
            &&& sanitized(lines.drop_first()) == before + appended
        }),
{
    let lines = with_system(Some(system), before) + appended;
    assert(lines.drop_first() =~= before + appended);
    lemma_consistent_context_kept(before + appended);
}

/// After dropping the leading tool messages the first message is not a tool message.
proof fn lemma_drop_leading_tools(ms: Seq<MessageView>)
    ensures
        drop_leading_tools(ms).len() > 0 ==> !(drop_leading_tools(ms)[0] is Tool),
    decreases ms.len(),
{
    if ms.len() > 0 && ms[0] is Tool {
        lemma_drop_leading_tools(ms.drop_first());
    }
}

/// The first record kept for a conversation is never the agent's.
proof fn lemma_kept_starts_with_other(s: Seq<MessageContentView>)
    ensures
        kept_records(s).len() > 0 ==> !kept_records(s)[0].is_self,
    decreases s.len(),
{
    if s.len() > 0 {
        lemma_kept_starts_with_other(s.drop_last());
    }
}

/// Consecutive speaker runs are of different sides, and the first run is on the side of
/// the first record.
proof fn lemma_runs_alternate(s: Seq<MessageContentView>)
    ensures
        forall|i: int| 0 <= i < speaker_runs(s).len() - 1 ==> #[trigger] speaker_runs(s)[i].0 != speaker_runs(s)[i + 1].0,
        speaker_runs(s).len() > 0 ==> s.len() > 0 && speaker_runs(s)[0].0 == s[0].is_self,
        s.len() > 0 ==> speaker_runs(s).len() > 0,
    decreases s.len(),
{
    if s.len() > 0 {
        let p = s.drop_last();
        lemma_runs_alternate(p);
        let r = speaker_runs(p);
        if p.len() > 0 {
            assert(p[0] == s[0]);
        }
        let out = speaker_runs(s);
        assert forall|i: int| 0 <= i < out.len() - 1 implies #[trigger] out[i].0 != out[i + 1].0 by {
            if r.len() > 0 && r.last().0 == s.last().is_self {
                assert(out[i].0 == r[i].0 && out[i + 1].0 == r[i + 1].0);
            } else {
                if i + 1 < r.len() {
                    assert(out[i] == r[i] && out[i + 1] == r[i + 1]);
                } else {
                    assert(out[i] == r[i]);
                }
            }
        }
    }
}

/// A packed memory conversation starts with a user message, alternates user and assistant
/// messages, and ends with an assistant message.
pub proof fn lemma_packed_memory_alternates(ms: Seq<MessageContentView>)
    ensures
        ({
            let out = packed_memory(ms);
            &&& out.len() > 0 ==> out[0] is User && !(out.last() is User)
            &&& forall|i: int| 0 <= i < out.len() ==> (#[trigger] out[i] is User || out[i] is Assistant)
            &&& forall|i: int| 0 <= i < out.len() - 1 ==> (#[trigger] out[i] is User) != (out[i + 1] is User)
        }),
{
    let k = kept_records(ms);
    lemma_kept_starts_with_other(ms);
    lemma_runs_alternate(k);
    let runs = speaker_runs(k);
    let body = runs.map_values(|r: (bool, Seq<Seq<char>>)| run_message(r));
    assert forall|i: int| 0 <= i < body.len() implies (#[trigger] body[i] is User) == !runs[i].0 && (body[i] is User || body[i] is Assistant) by {
    }
    let out = packed_memory(ms);
    if runs.len() > 0 && !runs.last().0 {
        assert(out == body.push(crate::message::assistant_text(Seq::empty())));
        assert forall|i: int| 0 <= i < out.len() - 1 implies (#[trigger] out[i] is User) != (out[i + 1] is User) by {
            if i + 1 < body.len() {
                assert(out[i] == body[i] && out[i + 1] == body[i + 1]);
            } else {
                assert(out[i] == body[i]);
                assert(body[i] is User);
            }
        }
        assert forall|i: int| 0 <= i < out.len() implies (#[trigger] out[i] is User || out[i] is Assistant) by {
            if i < body.len() {
                assert(out[i] == body[i]);
            }
        }
        if body.len() > 0 {
            assert(out[0] == body[0]);
        }
    } else {
        assert(out == body);
        if runs.len() > 0 {
            assert(body.last() == body[body.len() - 1]);
        }
    }
}

/// The lines of the runs spoken on side `agent` (the agent's when true, others' when false),
/// run after run.
pub open spec fn run_lines(runs: Seq<(bool, Seq<Seq<char>>)>, agent: bool) -> Seq<Seq<char>>
    decreases runs.len(),
{
    if runs.len() == 0 {
        Seq::empty()
    } else {
        run_lines(runs.drop_last(), agent) + if runs.last().0 == agent { runs.last().1 } else { Seq::empty() }
    }
}

/// The lines of the records spoken on side `agent`, in order.
pub open spec fn side_lines(s: Seq<MessageContentView>, agent: bool) -> Seq<Seq<char>>
    decreases s.len(),
{
    if s.len() == 0 {
        Seq::empty()
    } else {
        side_lines(s.drop_last(), agent) + if s.last().is_self == agent { seq![record_line(s.last())] } else { Seq::empty() }
    }
}

/// Grouping records into speaker runs loses and adds no line: the lines of each side's runs
/// are the lines of that side's records, in order.
proof fn lemma_runs_keep_lines(s: Seq<MessageContentView>, agent: bool)
    ensures
        run_lines(speaker_runs(s), agent) == side_lines(s, agent),
        s.len() > 0 ==> speaker_runs(s).len() > 0,
    decreases s.len(),
{
    if s.len() > 0 {
        let p = s.drop_last();
        lemma_runs_keep_lines(p, agent);
        let r = speaker_runs(p);
        let m = s.last();
        let x = record_line(m);
        if r.len() > 0 && r.last().0 == m.is_self {
            let r2 = r.update(r.len() - 1, (m.is_self, r.last().1.push(x)));
            assert(r2.drop_last() =~= r.drop_last());
            assert(r2.last() == (m.is_self, r.last().1.push(x)));
            if m.is_self == agent {
                assert(r.last().1.push(x) =~= r.last().1 + seq![x]);
                assert(run_lines(r2, agent) =~= run_lines(r.drop_last(), agent) + r.last().1 + seq![x]);
            } else {
                assert(run_lines(r2, agent) =~= run_lines(r.drop_last(), agent) + Seq::<Seq<char>>::empty());
                assert(run_lines(r, agent) =~= run_lines(r.drop_last(), agent) + Seq::<Seq<char>>::empty());
            }
        } else {
            let r2 = r.push((m.is_self, seq![x]));
            assert(r2.drop_last() =~= r);
        }
    }
}

/// Packing keeps the conversation's lines: the lines of the user messages are the lines of
/// the kept records of other speakers, and those of the agent's messages the lines of its
/// kept records, in order (each message holds its run's lines joined by newlines).
pub proof fn lemma_packed_memory_lines(ms: Seq<MessageContentView>)
    ensures
        run_lines(speaker_runs(kept_records(ms)), false) == side_lines(kept_records(ms), false),
        run_lines(speaker_runs(kept_records(ms)), true) == side_lines(kept_records(ms), true),
        forall|i: int| 0 <= i < speaker_runs(kept_records(ms)).len()
            ==> packed_memory(ms)[i] == run_message(#[trigger] speaker_runs(kept_records(ms))[i]),
{
    lemma_runs_keep_lines(kept_records(ms), false);
    lemma_runs_keep_lines(kept_records(ms), true);
    let runs = speaker_runs(kept_records(ms));
    let body = runs.map_values(|r: (bool, Seq<Seq<char>>)| run_message(r));
    assert forall|i: int| 0 <= i < runs.len() implies packed_memory(ms)[i] == run_message(#[trigger] runs[i]) by {
        assert(body[i] == run_message(runs[i]));
        if runs.len() > 0 && !runs.last().0 {
            assert(packed_memory(ms) == body.push(crate::message::assistant_text(Seq::empty())));
        }
    }
}

/// Whether every record is the agent's own or has no text.
pub open spec fn no_other_text(ms: Seq<MessageContentView>) -> bool {
    forall|i: int| 0 <= i < ms.len() ==> (#[trigger] ms[i]).is_self || ms[i].content.len() == 0
}

proof fn lemma_kept_empty(ms: Seq<MessageContentView>)
    ensures
        kept_records(ms).len() == 0 <==> no_other_text(ms),
    decreases ms.len(),
{
    if ms.len() > 0 {
        let p = ms.drop_last();
        lemma_kept_empty(p);
        if no_other_text(ms) {
            assert forall|i: int| 0 <= i < p.len() implies (#[trigger] p[i]).is_self || p[i].content.len() == 0 by {
                assert(p[i] == ms[i]);
            }
            assert(ms.last() == ms[ms.len() - 1]);
        }
        if kept_records(ms).len() == 0 {
            assert forall|i: int| 0 <= i < ms.len() implies (#[trigger] ms[i]).is_self || ms[i].content.len() == 0 by {
                if i < p.len() {
                    assert(p[i] == ms[i]);
                }
            }
        }
    }
}

/// Packed memory is empty exactly when no record of another speaker has text (the agent's
/// own records before anyone else spoke are dropped, as are records without text).
pub proof fn lemma_packed_memory_empty(ms: Seq<MessageContentView>)
    ensures
        packed_memory(ms).len() == 0 <==> no_other_text(ms),
{
    lemma_kept_empty(ms);
    lemma_runs_keep_lines(kept_records(ms), false);
}

/// Different digits are different characters.
proof fn lemma_hex_digit_injective(x: u8, y: u8)
    requires
        x < 16,
        y < 16,
        hex_digit(x) == hex_digit(y),
    ensures
        x == y,
{
}

/// The hexadecimal text of bytes has two digits per byte.
proof fn lemma_hex_len(b: Seq<u8>)
    ensures
        hex_bytes(b).len() == 2 * b.len(),
    decreases b.len(),
{
    if b.len() > 0 {
        lemma_hex_len(b.drop_last());
    }
}

/// Equal hexadecimal texts come from equal bytes.
proof fn lemma_hex_injective(b1: Seq<u8>, b2: Seq<u8>)
    requires
        hex_bytes(b1) == hex_bytes(b2),
    ensures
        b1 == b2,
    decreases b1.len(),
{
    lemma_hex_len(b1);
    lemma_hex_len(b2);
    if b1.len() > 0 {
        let h1 = hex_bytes(b1);
        let p1 = hex_bytes(b1.drop_last());
        let p2 = hex_bytes(b2.drop_last());
        lemma_hex_len(b1.drop_last());
        lemma_hex_len(b2.drop_last());
        let x = b1.last();
        let y = b2.last();
        assert(h1[h1.len() - 2] == hex_digit(x / 16) && h1[h1.len() - 1] == hex_digit(x % 16));
        assert(hex_bytes(b2)[h1.len() - 2] == hex_digit(y / 16) && hex_bytes(b2)[h1.len() - 1] == hex_digit(y % 16));
        lemma_hex_digit_injective(x / 16, y / 16);
        lemma_hex_digit_injective(x % 16, y % 16);
        assert(x == y) by (nonlinear_arith)
            requires
                x / 16 == y / 16,
                x % 16 == y % 16,
        ;
        assert(p1 =~= h1.subrange(0, h1.len() - 2));
        assert(p2 =~= hex_bytes(b2).subrange(0, h1.len() - 2));
        lemma_hex_injective(b1.drop_last(), b2.drop_last());
        assert(b1 =~= b1.drop_last().push(x));
        assert(b2 =~= b2.drop_last().push(y));
    }
}

/// Session keys whose texts differ are cached in different files: equal encodings (see
/// [`crate::context_cache::encode_session_key`]) mean equal key texts.
pub proof fn lemma_session_key_encoding_distinguishes(k1: SessionKeyView, k2: SessionKeyView)
    requires
        hex_bytes(vstd::utf8::encode_utf8(raw_session_key(k1))) == hex_bytes(vstd::utf8::encode_utf8(raw_session_key(k2))),
    ensures
        raw_session_key(k1) == raw_session_key(k2),
{
    lemma_hex_injective(vstd::utf8::encode_utf8(raw_session_key(k1)), vstd::utf8::encode_utf8(raw_session_key(k2)));
    vstd::utf8::encode_utf8_decode_utf8(raw_session_key(k1));
    vstd::utf8::encode_utf8_decode_utf8(raw_session_key(k2));
}


/// Two texts joined with `'|'` split back uniquely when the first parts hold no `'|'`.
proof fn lemma_bar_split(a1: Seq<char>, r1: Seq<char>, a2: Seq<char>, r2: Seq<char>)
    requires
        a1 + seq!['|'] + r1 == a2 + seq!['|'] + r2,
        !a1.contains('|'),
        !a2.contains('|'),
    ensures
        a1 == a2,
        r1 == r2,
{
    let s = a1 + seq!['|'] + r1;
    let t = a2 + seq!['|'] + r2;
    if a1.len() < a2.len() {
        assert(s[a1.len() as int] == '|');
        assert(t[a1.len() as int] == a2[a1.len() as int]);
        assert(a2.contains(a2[a1.len() as int]));
    } else if a2.len() < a1.len() {
        assert(t[a2.len() as int] == '|');
        assert(s[a2.len() as int] == a1[a2.len() as int]);
        assert(a1.contains(a1[a2.len() as int]));
    }
    assert(a1 =~= s.subrange(0, a1.len() as int));
    assert(a2 =~= t.subrange(0, a2.len() as int));
    assert(r1 =~= s.subrange(a1.len() as int + 1, s.len() as int));
    assert(r2 =~= t.subrange(a2.len() as int + 1, t.len() as int));
}

/// Session keys are cached in files of their own: when neither key's agent id nor role name
/// holds a `'|'`, two keys have equal encodings (see
/// [`crate::context_cache::encode_session_key`]) exactly when they are equal.
pub proof fn lemma_session_key_encoding_injective(k1: SessionKeyView, k2: SessionKeyView)
    requires
        !k1.agent_id.contains('|'),
        !k1.role_name.contains('|'),
        !k2.agent_id.contains('|'),
        !k2.role_name.contains('|'),
    ensures
        hex_bytes(vstd::utf8::encode_utf8(raw_session_key(k1))) == hex_bytes(vstd::utf8::encode_utf8(raw_session_key(k2)))
            <==> k1 == k2,
{
    if hex_bytes(vstd::utf8::encode_utf8(raw_session_key(k1))) == hex_bytes(vstd::utf8::encode_utf8(raw_session_key(k2))) {
        lemma_session_key_encoding_distinguishes(k1, k2);
        let m1 = match k1.mode { ModeView::Role => "role"@, ModeView::Event(e) => "event:"@ + e };
        let m2 = match k2.mode { ModeView::Role => "role"@, ModeView::Event(e) => "event:"@ + e };
        assert(raw_session_key(k1) =~= k1.agent_id + seq!['|'] + (k1.role_name + seq!['|'] + m1));
        assert(raw_session_key(k2) =~= k2.agent_id + seq!['|'] + (k2.role_name + seq!['|'] + m2));
        lemma_bar_split(k1.agent_id, k1.role_name + seq!['|'] + m1, k2.agent_id, k2.role_name + seq!['|'] + m2);
        lemma_bar_split(k1.role_name, m1, k2.role_name, m2);
        reveal_strlit("role");
        reveal_strlit("event:");
        match (k1.mode, k2.mode) {
            (ModeView::Event(e1), ModeView::Event(e2)) => {
                assert(e1 =~= m1.subrange(6, m1.len() as int));
                assert(e2 =~= m2.subrange(6, m2.len() as int));
            },
            (ModeView::Role, ModeView::Event(e2)) => {
                assert(m1.len() == 4 && m2.len() >= 6);
            },
            (ModeView::Event(e1), ModeView::Role) => {
                assert(m2.len() == 4 && m1.len() >= 6);
            },
            (ModeView::Role, ModeView::Role) => {},
        }
    }
}

/// Whether messages are in time order (no message is older than one before it).
pub open spec fn in_time_order(s: Seq<MemoryMsgView>) -> bool {
    forall|i: int, j: int| 0 <= i < j < s.len() ==> text_le(#[trigger] s[i].time, #[trigger] s[j].time)
}

proof fn lemma_le_trans(a: Seq<char>, b: Seq<char>, c: Seq<char>)
    ensures
        text_le(a, b) && text_le(b, c) ==> text_le(a, c),
        text_le(a, b) && text_lt(b, c) ==> text_lt(a, c),
        text_lt(a, b) && text_le(b, c) ==> text_lt(a, c),
        !text_le(a, b) ==> text_lt(b, a),
{
    lemma_text_lt_total(a, b);
    if text_lt(a, b) && text_lt(b, c) {
        lemma_text_lt_transitive(a, b, c);
    }
}

/// In time-ordered `s`, the messages not after `t` are exactly the first `count_not_after(s, t)`.
proof fn lemma_count_splits(s: Seq<MemoryMsgView>, t: Seq<char>)
    requires
        in_time_order(s),
    ensures
        count_not_after(s, t) <= s.len(),
        forall|k: int| 0 <= k < count_not_after(s, t) ==> text_le(#[trigger] s[k].time, t),
        forall|k: int| count_not_after(s, t) <= k < s.len() ==> text_lt(t, #[trigger] s[k].time),
    decreases s.len(),
{
    if s.len() > 0 {
        let p = s.drop_last();
        assert forall|i: int, j: int| 0 <= i < j < p.len() implies text_le(#[trigger] p[i].time, #[trigger] p[j].time) by {
            assert(p[i] == s[i] && p[j] == s[j]);
        }
        lemma_count_splits(p, t);
        let last = s.last().time;
        if text_le(last, t) {
            let c = count_not_after(p, t);
            if c < p.len() {
                assert(s[c as int] == p[c as int]);
                assert(text_le(s[c as int].time, s[s.len() - 1].time));
                lemma_le_trans(s[c as int].time, last, t);
                lemma_le_trans(t, s[c as int].time, last);
                lemma_text_lt_irreflexive(t);
                lemma_text_lt_total(t, s[c as int].time);
                assert(false);
            }
            assert forall|k: int| 0 <= k < count_not_after(s, t) implies text_le(#[trigger] s[k].time, t) by {
                if k < p.len() {
                    assert(s[k] == p[k]);
                }
            }
        } else {
            lemma_le_trans(last, t, last);
            assert forall|k: int| count_not_after(s, t) <= k < s.len() implies text_lt(t, #[trigger] s[k].time) by {
                if k < p.len() {
                    assert(s[k] == p[k]);
                } else {
                    lemma_le_trans(last, t, t);
                }
            }
            assert forall|k: int| 0 <= k < count_not_after(s, t) implies text_le(#[trigger] s[k].time, t) by {
                assert(s[k] == p[k]);
            }
        }
    }
}

proof fn lemma_insert_keeps_order(s: Seq<MemoryMsgView>, m: MemoryMsgView)
    requires
        in_time_order(s),
    ensures
        in_time_order(insert_by_time(s, m)),
        insert_by_time(s, m).to_multiset() == s.to_multiset().insert(m),
{
    lemma_count_splits(s, m.time);
    let p = count_not_after(s, m.time) as int;
    let r = insert_by_time(s, m);
    assert forall|i: int, j: int| 0 <= i < j < r.len() implies text_le(#[trigger] r[i].time, #[trigger] r[j].time) by {
        if j < p {
            assert(r[i] == s[i] && r[j] == s[j]);
        } else if j == p {
            assert(r[j] == m);
            assert(r[i] == s[i]);
        } else if i == p {
            assert(r[i] == m);
            assert(r[j] == s[j - 1]);
            lemma_text_lt_total(m.time, s[j - 1].time);
        } else if i < p {
            assert(r[i] == s[i]);
            assert(r[j] == s[j - 1]);
        } else {
            assert(r[i] == s[i - 1]);
            assert(r[j] == s[j - 1]);
        }
    }
    vstd::seq_lib::to_multiset_insert(s, p, m);
}

/// Remembered messages come back in time order, none lost or added, messages of the same
/// time keeping the order in which the store returned them: the sort orders by time and is a
/// permutation of its input (its stability is its definition, [`time_sorted`]).
pub proof fn lemma_time_sorted_orders(s: Seq<MemoryMsgView>)
    ensures
        in_time_order(time_sorted(s)),
        time_sorted(s).to_multiset() == s.to_multiset(),
    decreases s.len(),
{
    if s.len() == 0 {
    } else {
        lemma_time_sorted_orders(s.drop_last());
        lemma_insert_keeps_order(time_sorted(s.drop_last()), s.last());
        vstd::seq_lib::to_multiset_build(s.drop_last(), s.last());
        assert(s.drop_last().push(s.last()) =~= s);
    }
}

/// The context starts from the most recent remembered messages: what is chosen is a tail
/// of the time-ordered messages, at most as long as they are, and holds at least the last
/// `count` of them (all of them when there are fewer).
pub proof fn lemma_recent_window_is_tail(msgs: Seq<MemoryMsgView>, count: nat, window_start: Seq<char>)
    requires
        count > 0,
    ensures
        ({
            let w = recent_window(msgs, count, window_start);
            &&& w.len() <= msgs.len()
            &&& w == msgs.subrange(msgs.len() - w.len(), msgs.len() as int)
            &&& w.len() >= (if msgs.len() < count { msgs.len() } else { count })
        }),
{
    let w = recent_window(msgs, count, window_start);
    if msgs.len() == 0 {
    } else if msgs.len() <= count {
        assert(msgs.subrange(0, msgs.len() as int) =~= msgs);
    } else {
        let si = msgs.len() - count;
        let tn = msgs[si].time;
        if !text_lt(tn, window_start) {
            lemma_first_of_time_bound(msgs, tn, si);
        }
    }
}

proof fn lemma_first_of_time_bound(s: Seq<MemoryMsgView>, t: Seq<char>, i: int)
    requires
        0 <= i < s.len(),
        s[i].time == t,
    ensures
        0 <= crate::memory_reader::first_of_time(s, t) <= i,
    decreases s.len(),
{
    let p = s.drop_last();
    if i < s.len() - 1 {
        lemma_first_of_time_bound(p, t, i);
    } else {
        lemma_first_of_time_range(p, t);
    }
}

proof fn lemma_first_of_time_range(s: Seq<MemoryMsgView>, t: Seq<char>)
    ensures
        0 <= crate::memory_reader::first_of_time(s, t) <= s.len(),
    decreases s.len(),
{
    if s.len() > 0 {
        lemma_first_of_time_range(s.drop_last(), t);
    }
}


proof fn lemma_key_order(a: (Seq<char>, u64), b: (Seq<char>, u64), c: (Seq<char>, u64))
    ensures
        !key_lt(a, a),
        !(key_lt(a, b) && key_lt(b, a)),
        a != b ==> key_lt(a, b) || key_lt(b, a),
        key_lt(a, b) && key_lt(b, c) ==> key_lt(a, c),
{
    lemma_text_lt_irreflexive(a.0);
    lemma_text_lt_total(a.0, b.0);
    lemma_text_lt_total(b.0, c.0);
    lemma_text_lt_total(a.0, c.0);
    if text_lt(a.0, b.0) && text_lt(b.0, c.0) {
        lemma_text_lt_transitive(a.0, b.0, c.0);
    }
}

proof fn lemma_count_below_splits(s: Seq<((Seq<char>, u64), MessageContentView)>, k: (Seq<char>, u64))
    requires
        keys_ascending(s),
        !has_key(s, k),
    ensures
        count_below(s, k) <= s.len(),
        forall|j: int| 0 <= j < count_below(s, k) ==> key_lt(#[trigger] s[j].0, k),
        forall|j: int| count_below(s, k) <= j < s.len() ==> key_lt(k, #[trigger] s[j].0),
    decreases s.len(),
{
    if s.len() > 0 {
        let p = s.drop_last();
        assert forall|i: int, j: int| 0 <= i < j < p.len() implies key_lt(#[trigger] p[i].0, #[trigger] p[j].0) by {
            assert(p[i] == s[i] && p[j] == s[j]);
        }
        assert(!has_key(p, k)) by {
            if has_key(p, k) {
                let j = choose|j: int| 0 <= j < p.len() && (#[trigger] p[j]).0 == k;
                assert(s[j] == p[j]);
            }
        }
        lemma_count_below_splits(p, k);
        let last = s[s.len() - 1].0;
        assert(last != k);
        lemma_key_order(last, k, last);
        let c = count_below(p, k);
        if key_lt(last, k) {
            if c < p.len() {
                assert(s[c as int] == p[c as int]);
                lemma_key_order(k, p[c as int].0, last);
                assert(false);
            }
            assert forall|j: int| 0 <= j < count_below(s, k) implies key_lt(#[trigger] s[j].0, k) by {
                if j < p.len() {
                    assert(s[j] == p[j]);
                }
            }
        } else {
            assert forall|j: int| count_below(s, k) <= j < s.len() implies key_lt(k, #[trigger] s[j].0) by {
                if j < p.len() {
                    assert(s[j] == p[j]);
                }
            }
            assert forall|j: int| 0 <= j < count_below(s, k) implies key_lt(#[trigger] s[j].0, k) by {
                assert(s[j] == p[j]);
            }
        }
    }
}

proof fn lemma_absorbed_grows(s: Seq<((Seq<char>, u64), MessageContentView)>, k: (Seq<char>, u64), v: MessageContentView)
    requires
        keys_ascending(s),
    ensures
        keys_ascending(absorbed(s, k, v)),
        has_key(absorbed(s, k, v), k),
        forall|e: ((Seq<char>, u64), MessageContentView)| s.contains(e) ==> #[trigger] absorbed(s, k, v).contains(e),
        forall|k2: (Seq<char>, u64)| has_key(s, k2) ==> #[trigger] has_key(absorbed(s, k, v), k2),
{
    if !has_key(s, k) {
        lemma_count_below_splits(s, k);
        let c = count_below(s, k) as int;
        let r = s.insert(c, (k, v));
        assert forall|a: int, b: int| 0 <= a < b < r.len() implies key_lt(#[trigger] r[a].0, #[trigger] r[b].0) by {
            if b < c {
                assert(r[a] == s[a] && r[b] == s[b]);
            } else if b == c {
                assert(r[a] == s[a]);
            } else if a == c {
                assert(r[b] == s[b - 1]);
            } else if a < c {
                assert(r[a] == s[a] && r[b] == s[b - 1]);
                lemma_key_order(s[a].0, k, s[b - 1].0);
            } else {
                assert(r[a] == s[a - 1] && r[b] == s[b - 1]);
            }
        }
        assert(r[c].0 == k);
        assert forall|e: ((Seq<char>, u64), MessageContentView)| s.contains(e) implies #[trigger] r.contains(e) by {
            let j = choose|j: int| 0 <= j < s.len() && s[j] == e;
            if j < c {
                assert(r[j] == e);
            } else {
                assert(r[j + 1] == e);
            }
        }
        assert forall|k2: (Seq<char>, u64)| has_key(s, k2) implies #[trigger] has_key(r, k2) by {
            let j = choose|j: int| 0 <= j < s.len() && (#[trigger] s[j]).0 == k2;
            if j < c {
                assert(r[j] == s[j]);
            } else {
                assert(r[j + 1] == s[j]);
            }
        }
    }
}

proof fn lemma_absorb_all_grows(s: Seq<((Seq<char>, u64), MessageContentView)>, rs: Seq<StoredRecord>)
    requires
        keys_ascending(s),
    ensures
        keys_ascending(absorb_all(s, rs)),
        forall|e: ((Seq<char>, u64), MessageContentView)| s.contains(e) ==> #[trigger] absorb_all(s, rs).contains(e),
        forall|i: int| 0 <= i < rs.len() ==> has_key(absorb_all(s, rs), #[trigger] record_entry(rs[i]).0),
    decreases rs.len(),
{
    if rs.len() > 0 {
        let p = rs.drop_last();
        lemma_absorb_all_grows(s, p);
        let e = record_entry(rs.last());
        lemma_absorbed_grows(absorb_all(s, p), e.0, e.1);
        assert forall|i: int| 0 <= i < rs.len() implies has_key(absorb_all(s, rs), #[trigger] record_entry(rs[i]).0) by {
            if i < p.len() {
                assert(rs[i] == p[i]);
                assert(has_key(absorb_all(s, p), record_entry(p[i]).0));
            }
        }
    }
}

proof fn lemma_absorb_all_present(t: Seq<((Seq<char>, u64), MessageContentView)>, rs: Seq<StoredRecord>)
    requires
        forall|i: int| 0 <= i < rs.len() ==> has_key(t, #[trigger] record_entry(rs[i]).0),
    ensures
        absorb_all(t, rs) == t,
    decreases rs.len(),
{
    if rs.len() > 0 {
        let p = rs.drop_last();
        assert forall|i: int| 0 <= i < p.len() implies has_key(t, #[trigger] record_entry(p[i]).0) by {
            assert(p[i] == rs[i]);
        }
        lemma_absorb_all_present(t, p);
        assert(has_key(t, record_entry(rs[rs.len() - 1]).0));
    }
}

/// Recalling from two overlapping store replies keeps each record once: the collection stays
/// in ascending (time, serial number) order, what it held stays as it was (the first record of
/// a key wins), every record's key ends up in it, and taking in the same records again
/// changes nothing.
pub proof fn lemma_recall_union(s: Seq<((Seq<char>, u64), MessageContentView)>, rs: Seq<StoredRecord>)
    requires
        keys_ascending(s),
    ensures
        keys_ascending(absorb_all(s, rs)),
        forall|e: ((Seq<char>, u64), MessageContentView)| s.contains(e) ==> #[trigger] absorb_all(s, rs).contains(e),
        forall|i: int| 0 <= i < rs.len() ==> has_key(absorb_all(s, rs), #[trigger] record_entry(rs[i]).0),
        absorb_all(absorb_all(s, rs), rs) == absorb_all(s, rs),
{
    lemma_absorb_all_grows(s, rs);
    lemma_absorb_all_present(absorb_all(s, rs), rs);
}


// ---------- administrator commands ----------

/// A command's words are carried into the command unchanged: each command takes its
/// arguments from the words that follow its name (`/bind messenger m u`, `/admin m u`,
/// `/agent a r`, `/role r`, `/mode event e`, `/reenter e`, `/bind-outgoing m u g`,
/// `/model p m [true|false]`), and `/mode event` without an id asks for a fresh one.
pub proof fn lemma_command_arguments_carried(p: Seq<Seq<char>>)
    ensures
        p.len() >= 4 && p[0] == "bind"@ && p[1] == "messenger"@ ==> spec_command(p) == Ok::<CommandView, Seq<char>>(CommandView::Bind(p[2], p[3])),
        p.len() >= 4 && p[0] == "unbind"@ && p[1] == "messenger"@ ==> spec_command(p) == Ok::<CommandView, Seq<char>>(CommandView::Unbind(p[2], p[3])),
        p.len() >= 3 && p[0] == "admin"@ ==> spec_command(p) == Ok::<CommandView, Seq<char>>(CommandView::Admin(p[1], p[2])),
        p.len() >= 3 && p[0] == "unadmin"@ ==> spec_command(p) == Ok::<CommandView, Seq<char>>(CommandView::Unadmin(p[1], p[2])),
        p.len() >= 3 && p[0] == "agent"@ && p[1].len() > 0 ==> spec_command(p) == Ok::<CommandView, Seq<char>>(CommandView::Agent(p[1], p[2])),
        p.len() >= 2 && p[0] == "role"@ ==> spec_command(p) == Ok::<CommandView, Seq<char>>(CommandView::Role(p[1])),
        p.len() >= 3 && p[0] == "mode"@ && p[1] == "event"@ ==> spec_command(p) == Ok::<CommandView, Seq<char>>(CommandView::ModeEvent(Some(p[2]))),
        p.len() == 2 && p[0] == "mode"@ && p[1] == "event"@ ==> spec_command(p) == Ok::<CommandView, Seq<char>>(CommandView::ModeEvent(None)),
        p.len() >= 2 && p[0] == "mode"@ && p[1] == "role"@ ==> spec_command(p) == Ok::<CommandView, Seq<char>>(CommandView::ModeRole),
        p.len() >= 2 && p[0] == "reenter"@ ==> spec_command(p) == Ok::<CommandView, Seq<char>>(CommandView::Reenter(p[1])),
        p.len() >= 4 && p[0] == "bind-outgoing"@ ==> spec_command(p) == Ok::<CommandView, Seq<char>>(CommandView::BindOutgoing(p[1], p[2], p[3])),
        p.len() == 3 && p[0] == "model"@ ==> spec_command(p) == Ok::<CommandView, Seq<char>>(CommandView::Model(p[1], p[2], false)),
        p.len() == 4 && p[0] == "model"@ && p[3] == "true"@ ==> spec_command(p) == Ok::<CommandView, Seq<char>>(CommandView::Model(p[1], p[2], true)),
        p.len() == 4 && p[0] == "model"@ && p[3] == "false"@ ==> spec_command(p) == Ok::<CommandView, Seq<char>>(CommandView::Model(p[1], p[2], false)),
{
    reveal_strlit("bind");
    reveal_strlit("unbind");
    reveal_strlit("admin");
    reveal_strlit("unadmin");
    reveal_strlit("agent");
    reveal_strlit("role");
    reveal_strlit("mode");
    reveal_strlit("reenter");
    reveal_strlit("bind-outgoing");
    reveal_strlit("unbind-outgoing");
    reveal_strlit("model");
    reveal_strlit("messenger");
    reveal_strlit("event");
    reveal_strlit("true");
    reveal_strlit("false");
    assert("unbind"@.len() == 6 && "bind"@.len() == 4);
    assert("admin"@.len() == 5 && "bind"@.len() == 4);
    assert("admin"@.len() == 5 && "unbind"@.len() == 6);
    assert("unadmin"@.len() == 7 && "bind"@.len() == 4);
    assert("unadmin"@.len() == 7 && "unbind"@.len() == 6);
    assert("unadmin"@.len() == 7 && "admin"@.len() == 5);
    assert("agent"@.len() == 5 && "bind"@.len() == 4);
    assert("agent"@.len() == 5 && "unbind"@.len() == 6);
    assert("agent"@[1] == 'g' && "admin"@[1] == 'd');
    assert("agent"@.len() == 5 && "unadmin"@.len() == 7);
    assert("role"@[0] == 'r' && "bind"@[0] == 'b');
    assert("role"@.len() == 4 && "unbind"@.len() == 6);
    assert("role"@.len() == 4 && "admin"@.len() == 5);
    assert("role"@.len() == 4 && "unadmin"@.len() == 7);
    assert("role"@.len() == 4 && "agent"@.len() == 5);
    assert("mode"@[0] == 'm' && "bind"@[0] == 'b');
    assert("mode"@.len() == 4 && "unbind"@.len() == 6);
    assert("mode"@.len() == 4 && "admin"@.len() == 5);
    assert("mode"@.len() == 4 && "unadmin"@.len() == 7);
    assert("mode"@.len() == 4 && "agent"@.len() == 5);
    assert("mode"@[0] == 'm' && "role"@[0] == 'r');
    assert("reenter"@.len() == 7 && "bind"@.len() == 4);
    assert("reenter"@.len() == 7 && "unbind"@.len() == 6);
    assert("reenter"@.len() == 7 && "admin"@.len() == 5);
    assert("reenter"@[0] == 'r' && "unadmin"@[0] == 'u');
    assert("reenter"@.len() == 7 && "agent"@.len() == 5);
    assert("reenter"@.len() == 7 && "role"@.len() == 4);
    assert("reenter"@.len() == 7 && "mode"@.len() == 4);
    assert("bind-outgoing"@.len() == 13 && "bind"@.len() == 4);
    assert("bind-outgoing"@.len() == 13 && "unbind"@.len() == 6);
    assert("bind-outgoing"@.len() == 13 && "admin"@.len() == 5);
    assert("bind-outgoing"@.len() == 13 && "unadmin"@.len() == 7);
    assert("bind-outgoing"@.len() == 13 && "agent"@.len() == 5);
    assert("bind-outgoing"@.len() == 13 && "role"@.len() == 4);
    assert("bind-outgoing"@.len() == 13 && "mode"@.len() == 4);
    assert("bind-outgoing"@.len() == 13 && "reenter"@.len() == 7);
    assert("unbind-outgoing"@.len() == 15 && "bind"@.len() == 4);
    assert("unbind-outgoing"@.len() == 15 && "unbind"@.len() == 6);
    assert("unbind-outgoing"@.len() == 15 && "admin"@.len() == 5);
    assert("unbind-outgoing"@.len() == 15 && "unadmin"@.len() == 7);
    assert("unbind-outgoing"@.len() == 15 && "agent"@.len() == 5);
    assert("unbind-outgoing"@.len() == 15 && "role"@.len() == 4);
    assert("unbind-outgoing"@.len() == 15 && "mode"@.len() == 4);
    assert("unbind-outgoing"@.len() == 15 && "reenter"@.len() == 7);
    assert("unbind-outgoing"@.len() == 15 && "bind-outgoing"@.len() == 13);
    assert("model"@.len() == 5 && "bind"@.len() == 4);
    assert("model"@.len() == 5 && "unbind"@.len() == 6);
    assert("model"@[0] == 'm' && "admin"@[0] == 'a');
    assert("model"@.len() == 5 && "unadmin"@.len() == 7);
    assert("model"@[0] == 'm' && "agent"@[0] == 'a');
    assert("model"@.len() == 5 && "role"@.len() == 4);
    assert("model"@.len() == 5 && "mode"@.len() == 4);
    assert("model"@.len() == 5 && "reenter"@.len() == 7);
    assert("model"@.len() == 5 && "bind-outgoing"@.len() == 13);
    assert("model"@.len() == 5 && "unbind-outgoing"@.len() == 15);
    assert("event"@.len() == 5 && "role"@.len() == 4);
    assert("true"@.len() == 4 && "false"@.len() == 5);
}

// ---------- the system prompt from memory ----------

/// The prompt of an agent holds one section per lookup that found something, in the order
/// identity, individuals, role: the identity section of the metadata found, the
/// individual-recognition section of the individuals found, and the role-play section of the
/// role found, and nothing else.
pub proof fn lemma_prompt_has_each_found_section(m: Option<AgentMetadata>, inds: Option<IndividualRecognition>, role: Option<RolePlay>)
    ensures
        ({
            let parts = prompt_parts(m, inds, role);
            let a: int = if m is Some { 1 } else { 0 };
            let b: int = if inds is Some { 1 } else { 0 };
            let c: int = if role is Some { 1 } else { 0 };
            &&& parts.len() == a + b + c
            &&& m matches Some(x) ==> parts[0] == identity_md(x)
            &&& inds matches Some(x) ==> parts[a] == individual_recognition_md(x, None)
            &&& role matches Some(x) ==> parts[a + b] == role_play_md(x, None)
        }),
{
}

/// The prompt of a new session holds one section per lookup that found something, in the
/// order identity, individuals, role: the individuals shown only with the identities `ids`,
/// the role (when a role is named) only with the known roles of the individuals `ids`
/// identify.
pub proof fn lemma_ego_prompt_has_each_found_section(
    m: Option<AgentMetadata>,
    inds: Option<IndividualRecognition>,
    role: Option<RolePlay>,
    role_named: bool,
    ids: Seq<(Seq<char>, Seq<char>)>,
)
    ensures
        ({
            let parts = ego_parts(m, inds, role, role_named, ids);
            let a: int = if m is Some { 1 } else { 0 };
            let b: int = if inds is Some { 1 } else { 0 };
            let c: int = if role_named && role is Some { 1 } else { 0 };
            &&& parts.len() == a + b + c
            &&& m matches Some(x) ==> parts[0] == identity_md(x)
            &&& inds matches Some(x) ==> parts[a] == individual_recognition_md(x, Some(ids))
            &&& (role_named && role is Some) ==> parts[a + b] == role_play_md(role->0, Some(
                match inds { Some(x) => matched_names(x.individual_map@, ids), None => Seq::empty() }))
        }),
{
}

// ---------- tool calls of a model reply ----------

/// Whether a reply's tool-call entry is complete: it has a string `id` and a string
/// `function.name`.
pub open spec fn complete_call(v: JsonView) -> bool {
    spec_as_str(spec_get(v, "id"@)) is Some && spec_as_str(get2(v, "function"@, "name"@)) is Some
}

/// The call read from a complete entry: its id, its function's name and arguments, no result yet.
pub open spec fn call_of(v: JsonView) -> ToolCallView {
    ToolCallView {
        id: spec_as_str(spec_get(v, "id"@))->0,
        name: spec_as_str(get2(v, "function"@, "name"@))->0,
        arguments: get2(v, "function"@, "arguments"@),
        result: JsonView::Null,
        error: JsonView::Null,
    }
}

/// [`complete_call`] as a predicate.
pub open spec fn complete_pred() -> spec_fn(JsonView) -> bool {
    |v: JsonView| complete_call(v)
}

/// [`call_of`] as a function.
pub open spec fn call_fn() -> spec_fn(JsonView) -> ToolCallView {
    |v: JsonView| call_of(v)
}

/// Every complete tool-call entry of a reply is read, in order, and nothing else: the calls
/// are the complete entries, each as its call, so there are as many calls as complete entries.
pub proof fn lemma_tool_calls_are_complete_entries(items: Seq<JsonView>)
    ensures
        spec_tool_calls(items) == items.filter(complete_pred()).map_values(call_fn()),
        spec_tool_calls(items).len() == items.filter(complete_pred()).len(),
    decreases items.len(),
{
    reveal(Seq::filter);
    let f = complete_pred();
    let g = call_fn();
    if items.len() > 0 {
        lemma_tool_calls_are_complete_entries(items.drop_last());
        let rest = items.drop_last().filter(f);
        if f(items.last()) {
            assert(items.filter(f) == rest.push(items.last()));
            assert(rest.push(items.last()).map_values(g) =~= rest.map_values(g).push(g(items.last())));
        } else {
            assert(items.filter(f) == rest);
        }
    } else {
        assert(items.filter(f) =~= Seq::<JsonView>::empty());
        assert(items.filter(f).map_values(g) =~= Seq::<ToolCallView>::empty());
    }
}

/// Reading the tool calls of two lists of entries one after the other gives the calls of the
/// first followed by those of the second: no call is lost or reordered.
pub proof fn lemma_tool_calls_of_concat(a: Seq<JsonView>, b: Seq<JsonView>)
    ensures
        spec_tool_calls(a + b) == spec_tool_calls(a) + spec_tool_calls(b),
    decreases b.len(),
{
    if b.len() == 0 {
        assert(a + b =~= a);
        assert(spec_tool_calls(b) =~= Seq::<ToolCallView>::empty());
        assert(spec_tool_calls(a) + spec_tool_calls(b) =~= spec_tool_calls(a));
    } else {
        lemma_tool_calls_of_concat(a, b.drop_last());
        assert((a + b).drop_last() =~= a + b.drop_last());
        assert((a + b).last() == b.last());
        let x = spec_tool_calls(a);
        let y = spec_tool_calls(b.drop_last());
        assert((x + y).push(call_of(b.last())) =~= x + y.push(call_of(b.last())));
    }
}

/// A reply's single tool-call entry gives exactly its call when it is complete, and none
/// otherwise.
pub proof fn lemma_tool_calls_single(v: JsonView)
    ensures
        complete_call(v) ==> spec_tool_calls(seq![v]) == seq![call_of(v)],
        !complete_call(v) ==> spec_tool_calls(seq![v]).len() == 0,
{
    assert(seq![v].drop_last() =~= Seq::<JsonView>::empty());
    assert(spec_tool_calls(seq![v].drop_last()) =~= Seq::<ToolCallView>::empty());
    assert(seq![v].last() == v);
    assert(seq![call_of(v)] =~= Seq::<ToolCallView>::empty().push(call_of(v)));
}

// ---------- model lists and Anthropic bodies ----------

/// The ids of a model list are read entry by entry: those of two lists one after the other
/// are the first list's ids followed by the second's, and one entry gives its string id or
/// nothing.
pub proof fn lemma_model_ids_by_entry(a: Seq<JsonView>, b: Seq<JsonView>, v: JsonView)
    ensures
        spec_model_ids(a + b) == spec_model_ids(a) + spec_model_ids(b),
        spec_model_ids(seq![v]) == match spec_as_str(spec_get(v, "id"@)) {
            Some(id) => seq![id],
            None => Seq::<Seq<char>>::empty(),
        },
    decreases b.len(),
{
    assert(seq![v].drop_last() =~= Seq::<JsonView>::empty());
    assert(spec_model_ids(seq![v].drop_last()) =~= Seq::<Seq<char>>::empty());
    assert(seq![v].last() == v);
    if let Some(id) = spec_as_str(spec_get(v, "id"@)) {
        assert(seq![id] =~= Seq::<Seq<char>>::empty().push(id));
    }
    if b.len() == 0 {
        assert(a + b =~= a);
        assert(spec_model_ids(a) + spec_model_ids(b) =~= spec_model_ids(a));
    } else {
        lemma_model_ids_by_entry(a, b.drop_last(), v);
        assert((a + b).drop_last() =~= a + b.drop_last());
        assert((a + b).last() == b.last());
        let x = spec_model_ids(a);
        let y = spec_model_ids(b.drop_last());
        if let Some(id) = spec_as_str(spec_get(b.last(), "id"@)) {
            assert((x + y).push(id) =~= x + y.push(id));
        }
    }
}

/// The Anthropic body takes the messages one by one, in order: user and assistant messages
/// become `{"role", "content"}` entries with their content, system messages give their text
/// to `system` instead, and tool messages are not sent.
pub proof fn lemma_anthropic_messages_by_message(a: Seq<MessageView>, b: Seq<MessageView>, m: MessageView)
    ensures
        anthropic_messages(a + b) == anthropic_messages(a) + anthropic_messages(b),
        system_texts(a + b) == system_texts(a) + system_texts(b),
        anthropic_messages(seq![m]) == match m {
            MessageView::User(c) => seq![role_content("user"@, JsonView::Str(c))],
            MessageView::Assistant(c, _, _) => seq![role_content("assistant"@, c)],
            _ => Seq::<JsonView>::empty(),
        },
        system_texts(seq![m]) == match m {
            MessageView::System(c) => seq![c],
            _ => Seq::<Seq<char>>::empty(),
        },
    decreases b.len(),
{
    assert(seq![m].drop_last() =~= Seq::<MessageView>::empty());
    assert(anthropic_messages(seq![m].drop_last()) =~= Seq::<JsonView>::empty());
    assert(system_texts(seq![m].drop_last()) =~= Seq::<Seq<char>>::empty());
    assert(seq![m].last() == m);
    match m {
        MessageView::User(c) => {
            assert(seq![role_content("user"@, JsonView::Str(c))] =~= Seq::<JsonView>::empty().push(role_content("user"@, JsonView::Str(c))));
        },
        MessageView::Assistant(c, _, _) => {
            assert(seq![role_content("assistant"@, c)] =~= Seq::<JsonView>::empty().push(role_content("assistant"@, c)));
        },
        MessageView::System(c) => {
            assert(seq![c] =~= Seq::<Seq<char>>::empty().push(c));
        },
        _ => {},
    }
    if b.len() == 0 {
        assert(a + b =~= a);
        assert(anthropic_messages(a) + anthropic_messages(b) =~= anthropic_messages(a));
        assert(system_texts(a) + system_texts(b) =~= system_texts(a));
    } else {
        lemma_anthropic_messages_by_message(a, b.drop_last(), m);
        assert((a + b).drop_last() =~= a + b.drop_last());
        assert((a + b).last() == b.last());
        let x = anthropic_messages(a);
        let y = anthropic_messages(b.drop_last());
        let s = system_texts(a);
        let t = system_texts(b.drop_last());
        match b.last() {
            MessageView::User(c) => {
                assert((x + y).push(role_content("user"@, JsonView::Str(c))) =~= x + y.push(role_content("user"@, JsonView::Str(c))));
            },
            MessageView::Assistant(c, _, _) => {
                assert((x + y).push(role_content("assistant"@, c)) =~= x + y.push(role_content("assistant"@, c)));
            },
            MessageView::System(c) => {
                assert((s + t).push(c) =~= s + t.push(c));
            },
            _ => {},
        }
    }
}

/// The first block of a kind is found in order: in two block lists one after the other it
/// is the first list's when that has one, else the second's.
pub proof fn lemma_first_block_in_order(a: Seq<JsonView>, b: Seq<JsonView>, ty: Seq<char>, field: Seq<char>)
    ensures
        first_block(a + b, ty, field) == match first_block(a, ty, field) {
            Some(x) => Some(x),
            None => first_block(b, ty, field),
        },
    decreases b.len(),
{
    if b.len() == 0 {
        assert(a + b =~= a);
    } else {
        lemma_first_block_in_order(a, b.drop_last(), ty, field);
        assert((a + b).drop_last() =~= a + b.drop_last());
        assert((a + b).last() == b.last());
    }
}

// ---------- model settings ----------

/// Layering model settings: a provider or model the upper layer names replaces the lower
/// one's, and each parameter the upper layer sets explicitly (even to none) replaces the
/// lower one's; whatever the upper layer leaves unset comes from the lower layer.
pub proof fn lemma_llm_layer_overrides(base: LLMConfig, top: LLMConfig)
    ensures
        ({
            let r = llm_layered(base, top);
            &&& r.provider == (if top.provider is Some { top.provider } else { base.provider })
            &&& r.model == (if top.model is Some { top.model } else { base.model })
            &&& top.has_max_tokens ==> r.max_tokens == top.max_tokens && r.has_max_tokens
            &&& !top.has_max_tokens ==> r.max_tokens == base.max_tokens && r.has_max_tokens == base.has_max_tokens
            &&& top.has_temperature ==> r.temperature == top.temperature && r.has_temperature
            &&& !top.has_temperature ==> r.temperature == base.temperature && r.has_temperature == base.has_temperature
            &&& top.has_thinking ==> r.thinking == top.thinking && r.has_thinking
            &&& !top.has_thinking ==> r.thinking == base.thinking && r.has_thinking == base.has_thinking
            &&& top.has_reasoning_effort ==> r.reasoning_effort == top.reasoning_effort && r.has_reasoning_effort
            &&& !top.has_reasoning_effort ==> r.reasoning_effort == base.reasoning_effort
                && r.has_reasoning_effort == base.has_reasoning_effort
            &&& llm_layered(r, top) == r
        }),
{
}

// ---------- think blocks ----------

/// Whether `pat` occurs in `s` at position `i`.
pub open spec fn occurs_at(s: Seq<char>, pat: Seq<char>, i: int) -> bool {
    s.subrange(i, i + pat.len()) == pat
}

/// The first position at or after `j` where `pat` occurs is `k`, when it occurs at `k` and
/// nowhere from `j` up to `k`.
proof fn lemma_find_from_first(s: Seq<char>, pat: Seq<char>, j: int, k: int)
    requires
        0 <= j <= k,
        k + pat.len() <= s.len(),
        s.subrange(k, k + pat.len()) == pat,
        forall|i: int| j <= i < k ==> !#[trigger] occurs_at(s, pat, i),
    ensures
        find_from(s, pat, j) == Some(k),
    decreases k - j,
{
    if j < k {
        assert(!occurs_at(s, pat, j));
        lemma_find_from_first(s, pat, j + 1, k);
    } else {
        assert(occurs_at(s, pat, k));
    }
}

/// A leading think block is taken out of model output: for `<think>x</think>rest`, where the
/// closing tag first appears after `x`, the content is `rest` and the thinking is `x`.
pub proof fn lemma_think_block_taken_out(x: Seq<char>, rest: Seq<char>)
    requires
        forall|i: int| 0 <= i < x.len() ==> !#[trigger] occurs_at(x + close_tag(), close_tag(), i),
    ensures
        spec_strip_think(open_tag() + x + close_tag() + rest) == (rest, Some(x)),
{
    let c = open_tag() + x + close_tag() + rest;
    assert(c[0] == '<');
    vstd::utf8::char_u32_cast('<', 60u32);
    assert(!is_ws(c[0]));
    assert(trim_start(c) == c);
    assert(c.subrange(0, 7) =~= open_tag());
    let r0 = c.skip(7);
    assert(r0 =~= x + close_tag() + rest);
    let k = x.len() as int;
    assert(r0.subrange(k, k + 8) =~= close_tag());
    assert forall|i: int| 0 <= i < k implies !#[trigger] occurs_at(r0, close_tag(), i) by {
        assert(r0.subrange(i, i + 8) =~= (x + close_tag()).subrange(i, i + 8));
        assert(!occurs_at(x + close_tag(), close_tag(), i));
    }
    lemma_find_from_first(r0, close_tag(), 0, k);
    assert(r0.skip(k + 8) =~= rest);
    assert(r0.subrange(0, k) =~= x);
}

/// Model output that does not open with a think block is left as it is, with no thinking.
pub proof fn lemma_no_think_block_kept(c: Seq<char>)
    requires
        c.len() == 0 || (c[0] != '<' && !is_ws(c[0])),
    ensures
        spec_strip_think(c) == (c, None::<Seq<char>>),
{
    assert(trim_start(c) == c);
    if c.len() >= 7 {
        assert(c.subrange(0, 7)[0] == c[0]);
    }
}

// ---------- channel bindings ----------

/// Binding an identity to a channel makes it bound, unbinding makes it unbound, and neither
/// touches anything else of the channel; binding a new identity and unbinding it again
/// restores the bindings.
pub proof fn lemma_bind_unbind(c: ChannelConfigView, u: ChannelUser)
    ensures
        updated_channel(c, ChannelUpdate::BindUser(u)).bind_users.contains(u@),
        !updated_channel(c, ChannelUpdate::UnbindUser(u)).bind_users.contains(u@),
        forall|x: (Seq<char>, Seq<char>)| x != u@ ==> (updated_channel(c, ChannelUpdate::BindUser(u)).bind_users.contains(x)
            <==> c.bind_users.contains(x)),
        forall|x: (Seq<char>, Seq<char>)| x != u@ ==> (updated_channel(c, ChannelUpdate::UnbindUser(u)).bind_users.contains(x)
            <==> c.bind_users.contains(x)),
        updated_channel(c, ChannelUpdate::BindUser(u)) == (ChannelConfigView { bind_users: updated_channel(c, ChannelUpdate::BindUser(u)).bind_users, ..c }),
        updated_channel(c, ChannelUpdate::UnbindUser(u)) == (ChannelConfigView { bind_users: updated_channel(c, ChannelUpdate::UnbindUser(u)).bind_users, ..c }),
        !c.bind_users.contains(u@) ==> updated_channel(updated_channel(c, ChannelUpdate::BindUser(u)), ChannelUpdate::UnbindUser(u)) == c,
{
    if !c.bind_users.contains(u@) {
        assert(c.bind_users.insert(u@).remove(u@) =~= c.bind_users);
    }
}

/// A session override is merged over the settings in effect: a provider or model it names
/// replaces, each parameter it sets explicitly replaces, anything else stays; merging the
/// same override twice changes nothing more.
pub proof fn lemma_session_override_merge(e: EffectiveLLMConfigView, c: LLMConfig)
    ensures
        ({
            let r = llm_merged_by(e, c);
            &&& (c.provider matches Some(p) ==> r.provider == p@) && (c.provider is None ==> r.provider == e.provider)
            &&& (c.model matches Some(m) ==> r.model == m@) && (c.model is None ==> r.model == e.model)
            &&& r.max_tokens == (if c.has_max_tokens { c.max_tokens } else { e.max_tokens })
            &&& r.temperature == (if c.has_temperature { c.temperature } else { e.temperature })
            &&& (c.has_thinking ==> r.thinking == opt_view(c.thinking)) && (!c.has_thinking ==> r.thinking == e.thinking)
            &&& (c.has_reasoning_effort ==> r.reasoning_effort == opt_view(c.reasoning_effort))
            &&& (!c.has_reasoning_effort ==> r.reasoning_effort == e.reasoning_effort)
            &&& llm_merged_by(r, c) == r
        }),
{
}

/// The parameters in effect for a model: its own timeout and retry count when it sets them,
/// else the provider's defaults, else the global defaults; the token budget is the model's
/// own when it is configured, else the provider default's.
pub proof fn lemma_model_parameters_layered(p: ProviderModelConfigView, model: Seq<char>)
    ensures
        ({
            let r = effective_model(p, model);
            let d = p.default_model_config;
            &&& r.provider_config == p.provider_config
            &&& p.model_configs.dom().contains(model) ==> {
                let m = p.model_configs[model];
                &&& r.max_tokens_usage == m.max_tokens_usage
                &&& (m.timeout_secs matches Some(t) ==> r.timeout_secs == t)
                &&& ((m.timeout_secs is None && d.timeout_secs is Some) ==> r.timeout_secs == d.timeout_secs->0)
                &&& (m.timeout_secs is None && d.timeout_secs is None ==> r.timeout_secs == DEFAULT_TIMEOUT_SECS)
                &&& (m.retry_count matches Some(n) ==> r.retry_count == n)
                &&& ((m.retry_count is None && d.retry_count is Some) ==> r.retry_count == d.retry_count->0)
                &&& (m.retry_count is None && d.retry_count is None ==> r.retry_count == DEFAULT_RETRY_COUNT)
            }
            &&& !p.model_configs.dom().contains(model) ==> {
                &&& r.max_tokens_usage == d.max_tokens_usage
                &&& (d.timeout_secs matches Some(t) ==> r.timeout_secs == t)
                &&& (d.timeout_secs is None ==> r.timeout_secs == DEFAULT_TIMEOUT_SECS)
                &&& (d.retry_count matches Some(n) ==> r.retry_count == n)
                &&& (d.retry_count is None ==> r.retry_count == DEFAULT_RETRY_COUNT)
            }
        }),
{
}

// ---------- context settings ----------

/// The role's context settings override the agent's defaults one by one: each setting the
/// role sets is the one in effect, each it leaves unset is the agent's default, and without
/// an agent the global defaults are in effect.
pub proof fn lemma_role_context_overrides(agent: Option<&AgentContextConfig>, role: Option<&RoleContextConfig>)
    ensures
        ({
            let e = merged_context(agent, role);
            match agent {
                None => e.memory_count == DEFAULT_MEMORY_COUNT && e.memory_time_secs == DEFAULT_MEMORY_TIME_SECS
                    && e.channel_batch_interval_secs == DEFAULT_CHANNEL_BATCH_INTERVAL_SECS
                    && e.compress_prompt == DEFAULT_COMPRESS_PROMPT@ && e.stations == Set::<Seq<char>>::empty(),
                Some(a) => {
                    &&& (role is Some && role->0.memory_count is Some) ==> e.memory_count == role->0.memory_count->0
                    &&& !(role is Some && role->0.memory_count is Some) ==> e.memory_count == a.default_memory_count
                    &&& (role is Some && role->0.memory_time_secs is Some) ==> e.memory_time_secs == role->0.memory_time_secs->0
                    &&& !(role is Some && role->0.memory_time_secs is Some) ==> e.memory_time_secs == a.default_memory_time_secs
                    &&& (role is Some && role->0.channel_batch_interval_secs is Some) ==> e.channel_batch_interval_secs == role->0.channel_batch_interval_secs->0
                    &&& !(role is Some && role->0.channel_batch_interval_secs is Some) ==> e.channel_batch_interval_secs == a.default_channel_batch_interval_secs
                    &&& (role is Some && role->0.compress_prompt is Some) ==> e.compress_prompt == role->0.compress_prompt->0@
                    &&& !(role is Some && role->0.compress_prompt is Some) ==> e.compress_prompt == a.default_compress_prompt@
                    &&& (role is Some && role->0.stations is Some) ==> (forall|x: Seq<char>| e.stations.contains(x) <==> strs_view(role->0.stations->0@).contains(x))
                    &&& !(role is Some && role->0.stations is Some) ==> (forall|x: Seq<char>| e.stations.contains(x) <==> strs_view(a.default_stations@).contains(x))
                },
            }
        }),
{
}

} // verus!
