//! Remembered channel records as the memory reader hands them over, and their packing into
//! a conversation.
use vstd::prelude::*;
use crate::message::{contents_view, msgs_view, pack_memory_messages as pack_contents, packed_memory, Message, MessageContent, MessageContentView};
use crate::message::Content;
use crate::order::{text_le, text_less, text_less_eq, text_lt};
use crate::text::{is_empty_str, join_lines, join_newline, str_eq, strs_view};

verus! {

/// One remembered channel record: speaker name, text, time, and whether the agent spoke.
#[derive(Debug, Clone)]
pub struct MemoryMsg {
    pub user_name: String,
    pub content: String,
    pub time: String,
    pub is_self: bool,
}

/// The record view of a remembered record: its text as the only segment.
pub open spec fn memory_content(m: MemoryMsg) -> MessageContentView {
    MessageContentView { user_name: m.user_name@, content: seq![m.content@], is_self: m.is_self }
}

/// Packs remembered records into alternating user / assistant messages (see
/// [`packed_memory`]; every record here carries its text).
pub fn pack_memory_messages(msgs: &Vec<MemoryMsg>) -> (out: Vec<Message>)
    ensures
        msgs_view(out@) == packed_memory(msgs@.map_values(|m: MemoryMsg| memory_content(m))),
{
    let mut contents: Vec<MessageContent> = Vec::new();
    let mut i: usize = 0;
    while i < msgs.len()
        invariant
            i <= msgs.len(),
            contents_view(contents@) =~= msgs@.subrange(0, i as int).map_values(|m: MemoryMsg| memory_content(m)),
        decreases msgs.len() - i,
    {
        let m = &msgs[i];
        let mut parts: Vec<String> = Vec::new();
        parts.push(m.content.clone());
        assert(strs_view(parts@) =~= seq![m.content@]);
        let ghost before = contents@;
        contents.push(MessageContent { user_name: m.user_name.clone(), content: parts, is_self: m.is_self });
        assert(contents_view(contents@) =~= contents_view(before).push(memory_content(*m)));
        assert(msgs@.subrange(0, i + 1) =~= msgs@.subrange(0, i as int).push(*m));
        i = i + 1;
    }
    assert(msgs@.subrange(0, msgs.len() as int) =~= msgs@);
    pack_contents(&contents)
}

} // verus!

verus! {

/// Mathematical model of [`MemoryMsg`].
pub ghost struct MemoryMsgView {
    pub user_name: Seq<char>,
    pub content: Seq<char>,
    pub time: Seq<char>,
    pub is_self: bool,
}

impl View for MemoryMsg {
    type V = MemoryMsgView;

    open spec fn view(&self) -> MemoryMsgView {
        MemoryMsgView { user_name: self.user_name@, content: self.content@, time: self.time@, is_self: self.is_self }
    }
}

/// The models of a list of remembered records.
pub open spec fn memory_view(v: Seq<MemoryMsg>) -> Seq<MemoryMsgView> {
    v.map_values(|m: MemoryMsg| m@)
}

impl MemoryMsg {
    /// A copy with the same model.
    pub fn duplicate(&self) -> (r: MemoryMsg)
        ensures
            r@ == self@,
    {
        MemoryMsg {
            user_name: self.user_name.clone(),
            content: self.content.clone(),
            time: self.time.clone(),
            is_self: self.is_self,
        }
    }
}

/// One channel record as a query of the memory store returns it: its time, its serial
/// number (unique within one store file), speaker, whether the agent spoke, and content.
#[derive(Debug)]
pub struct StoredRecord {
    pub time: String,
    pub sn: u64,
    pub user_name: String,
    pub is_self: u8,
    pub content: Content,
}

/// The texts directly inside a list of contents (nested lists are not entered).
pub open spec fn direct_texts(items: Seq<Content>) -> Seq<Seq<char>>
    decreases items.len(),
{
    if items.len() == 0 {
        Seq::empty()
    } else {
        let r = direct_texts(items.drop_last());
        match items.last() {
            Content::Text(t) => r.push(t@),
            _ => r,
        }
    }
}

/// The text of a stored record: a text as it is, the texts directly inside a list joined by
/// newlines, and nothing for any other content.
pub open spec fn record_text(c: Content) -> Seq<char> {
    match c {
        Content::Text(t) => t@,
        Content::Multi(items) => join_lines(direct_texts(items@)),
        _ => Seq::empty(),
    }
}

/// The text of a stored record (see [`record_text`]).
pub fn extract_record_text(content: &Content) -> (r: String)
    ensures
        r@ == record_text(*content),
{
    match content {
        Content::Text(t) => t.clone(),
        Content::Multi(items) => {
            let mut texts: Vec<String> = Vec::new();
            let mut i: usize = 0;
            while i < items.len()
                invariant
                    i <= items.len(),
                    strs_view(texts@) == direct_texts(items@.take(i as int)),
                decreases items.len() - i,
            {
                assert(items@.take(i + 1).drop_last() =~= items@.take(i as int));
                assert(items@.take(i + 1).last() == items@[i as int]);
                match &items[i] {
                    Content::Text(t) => {
                        let ghost before = strs_view(texts@);
                        texts.push(t.clone());
                        assert(strs_view(texts@) =~= before.push(t@));
                    },
                    _ => {},
                }
                i = i + 1;
            }
            assert(items@.take(items.len() as int) =~= items@);
            join_newline(&texts)
        },
        _ => String::new(),
    }
}

/// The key that identifies a stored record: its time and serial number.
pub open spec fn stored_key(r: StoredRecord) -> (Seq<char>, u64) {
    (r.time@, r.sn)
}

/// The remembered message made from a stored record.
pub open spec fn stored_msg(r: StoredRecord) -> MemoryMsgView {
    MemoryMsgView { user_name: r.user_name@, content: record_text(r.content), time: r.time@, is_self: r.is_self != 0 }
}

/// Whether a record with text and the key `k` is among `rs`.
pub open spec fn text_key_seen(rs: Seq<StoredRecord>, k: (Seq<char>, u64)) -> bool {
    exists|i: int| 0 <= i < rs.len() && record_text(#[trigger] rs[i].content).len() > 0 && stored_key(rs[i]) == k
}

/// The messages read from records, in order: records without text are skipped, and of the
/// records with the same key only the first is kept.
pub open spec fn parsed_records(rs: Seq<StoredRecord>) -> Seq<MemoryMsgView>
    decreases rs.len(),
{
    if rs.len() == 0 {
        Seq::empty()
    } else {
        let p = parsed_records(rs.drop_last());
        let r = rs.last();
        if record_text(r.content).len() == 0 || text_key_seen(rs.drop_last(), stored_key(r)) {
            p
        } else {
            p.push(stored_msg(r))
        }
    }
}

/// The records of a query reply, group after group.
pub open spec fn flat_groups(gs: Seq<Vec<StoredRecord>>) -> Seq<StoredRecord>
    decreases gs.len(),
{
    if gs.len() == 0 {
        Seq::empty()
    } else {
        flat_groups(gs.drop_last()) + gs.last()@
    }
}

/// Whether the key (`time`, `sn`) is in `seen`.
fn key_listed(seen: &Vec<(String, u64)>, time: &str, sn: u64) -> (r: bool)
    ensures
        r == seen@.map_values(|e: (String, u64)| (e.0@, e.1)).contains((time@, sn)),
{
    let ghost keys = seen@.map_values(|e: (String, u64)| (e.0@, e.1));
    let mut i: usize = 0;
    while i < seen.len()
        invariant
            i <= seen.len(),
            keys == seen@.map_values(|e: (String, u64)| (e.0@, e.1)),
            forall|j: int| 0 <= j < i ==> keys[j] != (time@, sn),
        decreases seen.len() - i,
    {
        if seen[i].1 == sn && str_eq(seen[i].0.as_str(), time) {
            assert(keys[i as int] == (time@, sn));
            return true;
        }
        i = i + 1;
    }
    false
}

/// Reads the messages of a query reply (see [`parsed_records`] over [`flat_groups`]), in
/// the order of the reply.
pub fn parse_records(groups: &Vec<Vec<StoredRecord>>) -> (r: Vec<MemoryMsg>)
    ensures
        memory_view(r@) == parsed_records(flat_groups(groups@)),
{
    let mut out: Vec<MemoryMsg> = Vec::new();
    let mut seen: Vec<(String, u64)> = Vec::new();
    let ghost mut done: Seq<StoredRecord> = Seq::empty();
    let mut gi: usize = 0;
    while gi < groups.len()
        invariant
            gi <= groups.len(),
            done == flat_groups(groups@.take(gi as int)),
            memory_view(out@) == parsed_records(done),
            forall|k: (Seq<char>, u64)| #![trigger text_key_seen(done, k)]
                seen@.map_values(|e: (String, u64)| (e.0@, e.1)).contains(k) <==> text_key_seen(done, k),
        decreases groups.len() - gi,
    {
        let g = &groups[gi];
        let ghost start = done;
        let mut ri: usize = 0;
        while ri < g.len()
            invariant
                ri <= g.len(),
                g == groups@[gi as int],
                done == start + g@.take(ri as int),
                memory_view(out@) == parsed_records(done),
                forall|k: (Seq<char>, u64)| #![trigger text_key_seen(done, k)]
                    seen@.map_values(|e: (String, u64)| (e.0@, e.1)).contains(k) <==> text_key_seen(done, k),
            decreases g.len() - ri,
        {
            let rec = &g[ri];
            let ghost prev = done;
            proof {
                done = done.push(*rec);
                assert(done.drop_last() =~= prev);
                assert(g@.take(ri + 1) =~= g@.take(ri as int).push(*rec));
                assert(done =~= start + g@.take(ri + 1));
            }
            let text = extract_record_text(&rec.content);
            if !is_empty_str(text.as_str()) {
                let listed = key_listed(&seen, rec.time.as_str(), rec.sn);
                assert(listed == text_key_seen(prev, stored_key(*rec)));
                if !listed {
                    let ghost keys0 = seen@.map_values(|e: (String, u64)| (e.0@, e.1));
                    seen.push((rec.time.clone(), rec.sn));
                    let ghost keys1 = seen@.map_values(|e: (String, u64)| (e.0@, e.1));
                    assert(keys1 =~= keys0.push(stored_key(*rec)));
                    let ghost mv = memory_view(out@);
                    out.push(MemoryMsg {
                        user_name: rec.user_name.clone(),
                        content: text,
                        time: rec.time.clone(),
                        is_self: rec.is_self != 0,
                    });
                    assert(memory_view(out@) =~= mv.push(stored_msg(*rec)));
                    assert forall|k: (Seq<char>, u64)| #![trigger text_key_seen(done, k)]
                        keys1.contains(k) <==> text_key_seen(done, k) by {
                        if keys1.contains(k) {
                            let j = choose|j: int| 0 <= j < keys1.len() && keys1[j] == k;
                            if j < keys0.len() {
                                assert(keys0[j] == k);
                                assert(keys0.contains(k));
                                assert(text_key_seen(prev, k));
                                let i = choose|i: int| 0 <= i < prev.len() && record_text(#[trigger] prev[i].content).len() > 0 && stored_key(prev[i]) == k;
                                assert(done[i] == prev[i]);
                            } else {
                                assert(done[prev.len() as int] == *rec);
                            }
                            assert(text_key_seen(done, k));
                        }
                        if text_key_seen(done, k) {
                            let i = choose|i: int| 0 <= i < done.len() && record_text(#[trigger] done[i].content).len() > 0 && stored_key(done[i]) == k;
                            if i < prev.len() {
                                assert(prev[i] == done[i]);
                                assert(text_key_seen(prev, k));
                                assert(keys0.contains(k));
                                let j = choose|j: int| 0 <= j < keys0.len() && keys0[j] == k;
                                assert(keys1[j] == k);
                            } else {
                                assert(done[i] == *rec);
                                assert(keys1[keys0.len() as int] == k);
                            }
                            assert(keys1.contains(k));
                        }
                    }
                } else {
                    assert forall|k: (Seq<char>, u64)| #![trigger text_key_seen(done, k)]
                        seen@.map_values(|e: (String, u64)| (e.0@, e.1)).contains(k) <==> text_key_seen(done, k) by {
                        if text_key_seen(prev, k) {
                            let i = choose|i: int| 0 <= i < prev.len() && record_text(#[trigger] prev[i].content).len() > 0 && stored_key(prev[i]) == k;
                            assert(done[i] == prev[i]);
                        }
                        if text_key_seen(done, k) {
                            let i = choose|i: int| 0 <= i < done.len() && record_text(#[trigger] done[i].content).len() > 0 && stored_key(done[i]) == k;
                            if i < prev.len() {
                                assert(prev[i] == done[i]);
                            } else {
                                assert(done[i] == *rec);
                            }
                        }
                    }
                }
            } else {
                assert forall|k: (Seq<char>, u64)| #![trigger text_key_seen(done, k)]
                    seen@.map_values(|e: (String, u64)| (e.0@, e.1)).contains(k) <==> text_key_seen(done, k) by {
                    if text_key_seen(prev, k) {
                        let i = choose|i: int| 0 <= i < prev.len() && record_text(#[trigger] prev[i].content).len() > 0 && stored_key(prev[i]) == k;
                        assert(done[i] == prev[i]);
                    }
                    if text_key_seen(done, k) {
                        let i = choose|i: int| 0 <= i < done.len() && record_text(#[trigger] done[i].content).len() > 0 && stored_key(done[i]) == k;
                        if i < prev.len() {
                            assert(prev[i] == done[i]);
                        } else {
                            assert(done[i] == *rec);
                        }
                    }
                }
            }
            ri = ri + 1;
        }
        proof {
            assert(g@.take(g.len() as int) =~= g@);
            assert(groups@.take(gi + 1).drop_last() =~= groups@.take(gi as int));
            assert(groups@.take(gi + 1).last() == groups@[gi as int]);
        }
        gi = gi + 1;
    }
    assert(groups@.take(groups.len() as int) =~= groups@);
    out
}

} // verus!

verus! {

/// How many of `s` have a time not after `t`.
pub open spec fn count_not_after(s: Seq<MemoryMsgView>, t: Seq<char>) -> nat
    decreases s.len(),
{
    if s.len() == 0 {
        0
    } else {
        count_not_after(s.drop_last(), t) + if text_le(s.last().time, t) { 1nat } else { 0nat }
    }
}

/// `m` inserted into `s` after every message whose time is not after its own.
pub open spec fn insert_by_time(s: Seq<MemoryMsgView>, m: MemoryMsgView) -> Seq<MemoryMsgView> {
    s.insert(count_not_after(s, m.time) as int, m)
}

/// `s` ordered by time, messages of the same time keeping their order (a stable sort).
pub open spec fn time_sorted(s: Seq<MemoryMsgView>) -> Seq<MemoryMsgView>
    decreases s.len(),
{
    if s.len() == 0 {
        s
    } else {
        insert_by_time(time_sorted(s.drop_last()), s.last())
    }
}

proof fn lemma_count_not_after_bound(s: Seq<MemoryMsgView>, t: Seq<char>)
    ensures
        count_not_after(s, t) <= s.len(),
    decreases s.len(),
{
    if s.len() > 0 {
        lemma_count_not_after_bound(s.drop_last(), t);
    }
}

proof fn lemma_time_sorted_len(s: Seq<MemoryMsgView>)
    ensures
        time_sorted(s).len() == s.len(),
    decreases s.len(),
{
    if s.len() > 0 {
        lemma_time_sorted_len(s.drop_last());
        lemma_count_not_after_bound(time_sorted(s.drop_last()), s.last().time);
    }
}

/// How many of `v` have a time not after `t` (see [`count_not_after`]).
fn count_times_not_after(v: &Vec<MemoryMsg>, t: &str) -> (r: usize)
    ensures
        r == count_not_after(memory_view(v@), t@),
{
    let mut n: usize = 0;
    let mut i: usize = 0;
    while i < v.len()
        invariant
            i <= v.len(),
            n == count_not_after(memory_view(v@).take(i as int), t@),
            n <= i,
        decreases v.len() - i,
    {
        let ghost mv = memory_view(v@);
        assert(mv.take(i + 1).drop_last() =~= mv.take(i as int));
        assert(mv.take(i + 1).last() == v@[i as int]@);
        if text_less_eq(v[i].time.as_str(), t) {
            n = n + 1;
        }
        i = i + 1;
    }
    assert(memory_view(v@).take(v.len() as int) =~= memory_view(v@));
    n
}

/// Orders remembered messages by time, keeping the order of messages of the same time
/// (see [`time_sorted`]).
pub fn sort_by_time(msgs: &Vec<MemoryMsg>) -> (r: Vec<MemoryMsg>)
    ensures
        memory_view(r@) == time_sorted(memory_view(msgs@)),
{
    let mut out: Vec<MemoryMsg> = Vec::new();
    let mut i: usize = 0;
    while i < msgs.len()
        invariant
            i <= msgs.len(),
            memory_view(out@) == time_sorted(memory_view(msgs@).take(i as int)),
        decreases msgs.len() - i,
    {
        let ghost mv = memory_view(msgs@);
        assert(mv.take(i + 1).drop_last() =~= mv.take(i as int));
        assert(mv.take(i + 1).last() == msgs@[i as int]@);
        let m = msgs[i].duplicate();
        let p = count_times_not_after(&out, m.time.as_str());
        proof {
            lemma_count_not_after_bound(memory_view(out@), m.time@);
        }
        let ghost before = memory_view(out@);
        out.insert(p, m);
        assert(memory_view(out@) =~= before.insert(p as int, m@));
        i = i + 1;
    }
    assert(memory_view(msgs@).take(msgs.len() as int) =~= memory_view(msgs@));
    out
}

/// The position of the first message of time `t` in `s` (`s.len()` when there is none).
pub open spec fn first_of_time(s: Seq<MemoryMsgView>, t: Seq<char>) -> int
    decreases s.len(),
{
    if s.len() == 0 {
        0
    } else {
        let i = first_of_time(s.drop_last(), t);
        if i < s.len() - 1 {
            i
        } else if s.last().time == t {
            s.len() - 1
        } else {
            s.len() as int
        }
    }
}

proof fn lemma_first_of_time(s: Seq<MemoryMsgView>, t: Seq<char>, j: int)
    requires
        0 <= j <= s.len(),
        forall|k: int| 0 <= k < j ==> s[k].time != t,
        j < s.len() ==> s[j].time == t,
    ensures
        first_of_time(s, t) == j,
    decreases s.len(),
{
    if s.len() > 0 {
        let p = s.drop_last();
        if j < s.len() - 1 {
            lemma_first_of_time(p, t, j);
        } else {
            lemma_first_of_time(p, t, p.len() as int);
        }
    }
}

/// The remembered messages the context starts from, out of all messages in time order:
/// none when there are none or none are asked for; all when there are at most `count`;
/// otherwise the last `count`, extended back to the first message of the same time as the
/// oldest of them unless that time lies before the window start `window_start`.
pub open spec fn recent_window(msgs: Seq<MemoryMsgView>, count: nat, window_start: Seq<char>) -> Seq<MemoryMsgView> {
    if msgs.len() == 0 || count == 0 {
        Seq::empty()
    } else if msgs.len() <= count {
        msgs
    } else {
        let si = msgs.len() - count;
        let tn = msgs[si].time;
        if text_lt(tn, window_start) {
            msgs.subrange(si, msgs.len() as int)
        } else {
            msgs.subrange(first_of_time(msgs, tn), msgs.len() as int)
        }
    }
}

/// The messages of `msgs` from position `from` on.
fn tail_from(msgs: &Vec<MemoryMsg>, from: usize) -> (r: Vec<MemoryMsg>)
    requires
        from <= msgs.len(),
    ensures
        memory_view(r@) == memory_view(msgs@).subrange(from as int, msgs@.len() as int),
{
    let mut out: Vec<MemoryMsg> = Vec::new();
    let mut i: usize = from;
    while i < msgs.len()
        invariant
            from <= i <= msgs.len(),
            memory_view(out@) == memory_view(msgs@).subrange(from as int, i as int),
        decreases msgs.len() - i,
    {
        let ghost before = memory_view(out@);
        out.push(msgs[i].duplicate());
        assert(memory_view(out@) =~= before.push(msgs@[i as int]@));
        assert(memory_view(msgs@).subrange(from as int, i + 1) =~= memory_view(msgs@).subrange(from as int, i as int).push(msgs@[i as int]@));
        i = i + 1;
    }
    out
}

/// Chooses the messages the context starts from (see [`recent_window`]).
pub fn select_recent(msgs: &Vec<MemoryMsg>, count: usize, window_start: &str) -> (r: Vec<MemoryMsg>)
    ensures
        memory_view(r@) == recent_window(memory_view(msgs@), count as nat, window_start@),
{
    let ghost mv = memory_view(msgs@);
    if msgs.len() == 0 || count == 0 {
        return Vec::new();
    }
    if msgs.len() <= count {
        let r = tail_from(msgs, 0);
        assert(mv.subrange(0, mv.len() as int) =~= mv);
        return r;
    }
    let si = msgs.len() - count;
    let tn = msgs[si].time.as_str();
    if text_less(tn, window_start) {
        return tail_from(msgs, si);
    }
    let mut j: usize = 0;
    while j < msgs.len() && !str_eq(msgs[j].time.as_str(), tn)
        invariant
            j <= msgs.len(),
            mv == memory_view(msgs@),
            tn@ == mv[si as int].time,
            si < msgs.len(),
            forall|k: int| 0 <= k < j ==> mv[k].time != tn@,
        decreases msgs.len() - j,
    {
        j = j + 1;
    }
    proof {
        lemma_first_of_time(mv, tn@, j as int);
    }
    tail_from(msgs, j)
}

/// The messages the context starts from, read from a query reply: parsed (see
/// [`parse_records`]), ordered by time (see [`sort_by_time`]) and chosen (see [`select_recent`]).
pub fn recent_memory(groups: &Vec<Vec<StoredRecord>>, count: usize, window_start: &str) -> (r: Vec<MemoryMsg>)
    ensures
        memory_view(r@) == recent_window(time_sorted(parsed_records(flat_groups(groups@))), count as nat, window_start@),
{
    let parsed = parse_records(groups);
    let sorted = sort_by_time(&parsed);
    select_recent(&sorted, count, window_start)
}

} // verus!
