//! Recent channel memory from two store queries: the last `count` records, then every record
//! from the start of the time window (or the oldest of those, if later) up to that oldest
//! one. Both replies go into one collection keyed by (time, serial number), which keeps each
//! record once, the first one seen, and keeps them in key order.
use vstd::prelude::*;
use crate::memory_reader::{flat_groups, StoredRecord};
use crate::message::{contents_view, extract_content, text_parts, MessageContent, MessageContentView};
use crate::order::{lemma_text_lt_irreflexive, lemma_text_lt_total, lemma_text_lt_transitive, text_less, text_lt};
use crate::text::str_eq;

verus! {

/// The key of a remembered record: its time and serial number.
pub open spec fn key_lt(a: (Seq<char>, u64), b: (Seq<char>, u64)) -> bool {
    text_lt(a.0, b.0) || (a.0 == b.0 && a.1 < b.1)
}

/// Whether the entries are in strictly ascending key order (so each key occurs once).
pub open spec fn keys_ascending(s: Seq<((Seq<char>, u64), MessageContentView)>) -> bool {
    forall|i: int, j: int| 0 <= i < j < s.len() ==> key_lt(#[trigger] s[i].0, #[trigger] s[j].0)
}

/// Whether an entry has the key `k`.
pub open spec fn has_key(s: Seq<((Seq<char>, u64), MessageContentView)>, k: (Seq<char>, u64)) -> bool {
    exists|i: int| 0 <= i < s.len() && (#[trigger] s[i]).0 == k
}

/// How many entries have a key before `k`.
pub open spec fn count_below(s: Seq<((Seq<char>, u64), MessageContentView)>, k: (Seq<char>, u64)) -> nat
    decreases s.len(),
{
    if s.len() == 0 {
        0
    } else {
        count_below(s.drop_last(), k) + if key_lt(s.last().0, k) { 1nat } else { 0nat }
    }
}

/// The entries after one more record with key `k` and content `v` arrives: unchanged when the
/// key is already there, else the record placed among the entries by its key.
pub open spec fn absorbed(s: Seq<((Seq<char>, u64), MessageContentView)>, k: (Seq<char>, u64), v: MessageContentView) -> Seq<((Seq<char>, u64), MessageContentView)> {
    if has_key(s, k) {
        s
    } else {
        s.insert(count_below(s, k) as int, (k, v))
    }
}

/// The entry of a stored record: its key, and its speaker, text parts and side.
pub open spec fn record_entry(r: StoredRecord) -> ((Seq<char>, u64), MessageContentView) {
    ((r.time@, r.sn), MessageContentView { user_name: r.user_name@, content: text_parts(r.content), is_self: r.is_self != 0 })
}

/// The entries after the records `rs` arrive, in order.
pub open spec fn absorb_all(s: Seq<((Seq<char>, u64), MessageContentView)>, rs: Seq<StoredRecord>) -> Seq<((Seq<char>, u64), MessageContentView)>
    decreases rs.len(),
{
    if rs.len() == 0 {
        s
    } else {
        let e = record_entry(rs.last());
        absorbed(absorb_all(s, rs.drop_last()), e.0, e.1)
    }
}

proof fn lemma_key_lt_order(a: (Seq<char>, u64), b: (Seq<char>, u64), c: (Seq<char>, u64))
    ensures
        !key_lt(a, a),
        !(key_lt(a, b) && key_lt(b, a)),
        a != b ==> key_lt(a, b) || key_lt(b, a),
        key_lt(a, b) && key_lt(b, c) ==> key_lt(a, c),
{
    lemma_text_lt_irreflexive(a.0);
    lemma_text_lt_total(a.0, b.0);
    lemma_text_lt_total(b.0, c.0);
    lemma_text_lt_total(a.0, c.0);
    if text_lt(a.0, b.0) && text_lt(b.0, c.0) {
        lemma_text_lt_transitive(a.0, b.0, c.0);
    }
    if text_lt(a.0, b.0) && b.0 == c.0 {
    }
    if a.0 == b.0 && text_lt(b.0, c.0) {
    }
}

proof fn lemma_count_below_at(s: Seq<((Seq<char>, u64), MessageContentView)>, k: (Seq<char>, u64), i: int)
    requires
        0 <= i <= s.len(),
        forall|j: int| 0 <= j < i ==> key_lt(#[trigger] s[j].0, k),
        forall|j: int| i <= j < s.len() ==> !key_lt(#[trigger] s[j].0, k),
    ensures
        count_below(s, k) == i,
    decreases s.len(),
{
    if s.len() > 0 {
        let p = s.drop_last();
        if i == s.len() {
            assert(key_lt(s[s.len() - 1].0, k));
            lemma_count_below_at(p, k, i - 1);
        } else {
            assert(!key_lt(s[s.len() - 1].0, k));
            lemma_count_below_at(p, k, i);
        }
    }
}

/// One remembered record held for the context.
#[derive(Debug)]
struct RecentEntry {
    time: String,
    sn: u64,
    content: MessageContent,
}

/// Recalled records, each key once, in ascending key order.
#[derive(Debug)]
pub struct RecentRecords {
    entries: Vec<RecentEntry>,
}

/// The entry models of a list of entries.
spec fn entries_view(v: Seq<RecentEntry>) -> Seq<((Seq<char>, u64), MessageContentView)> {
    v.map_values(|e: RecentEntry| ((e.time@, e.sn), e.content@))
}

impl View for RecentRecords {
    type V = Seq<((Seq<char>, u64), MessageContentView)>;

    closed spec fn view(&self) -> Seq<((Seq<char>, u64), MessageContentView)> {
        entries_view(self.entries@)
    }
}

impl RecentRecords {
    #[verifier::type_invariant]
    spec fn ascending(self) -> bool {
        keys_ascending(entries_view(self.entries@))
    }

    /// No records.
    pub fn new() -> (r: RecentRecords)
        ensures
            r@ == Seq::<((Seq<char>, u64), MessageContentView)>::empty(),
    {
        let r = RecentRecords { entries: Vec::new() };
        assert(entries_view(r.entries@) =~= Seq::<((Seq<char>, u64), MessageContentView)>::empty());
        r
    }

    /// How many records are held.
    pub fn len(&self) -> (r: usize)
        ensures
            r == self@.len(),
            keys_ascending(self@),
    {
        proof { use_type_invariant(self); }
        self.entries.len()
    }

    /// Takes in one stored record (see [`absorbed`]).
    pub fn absorb(&mut self, rec: &StoredRecord)
        ensures
            final(self)@ == absorbed(old(self)@, record_entry(*rec).0, record_entry(*rec).1),
            keys_ascending(final(self)@),
    {
        proof { use_type_invariant(&*self); }
        let ghost s = self@;
        let ghost k = record_entry(*rec).0;
        let mut v: Vec<RecentEntry> = Vec::new();
        std::mem::swap(&mut v, &mut self.entries);
        assert(entries_view(v@) == s);
        let mut i: usize = 0;
        while i < v.len()
            invariant
                i <= v.len(),
                entries_view(v@) == s,
                keys_ascending(s),
                k == (rec.time@, rec.sn),
                forall|j: int| 0 <= j < i ==> key_lt(#[trigger] s[j].0, k),
            ensures
                i <= v.len(),
                entries_view(v@) == s,
                forall|j: int| 0 <= j < i ==> key_lt(#[trigger] s[j].0, k),
                i < v.len() ==> !key_lt(s[i as int].0, k),
            decreases v.len() - i,
        {
            assert(s[i as int].0 == (v@[i as int].time@, v@[i as int].sn));
            let less = text_less(v[i].time.as_str(), rec.time.as_str())
                || (str_eq(v[i].time.as_str(), rec.time.as_str()) && v[i].sn < rec.sn);
            if !less {
                break;
            }
            i = i + 1;
        }
        if i < v.len() {
            assert(s[i as int].0 == (v@[i as int].time@, v@[i as int].sn));
        }
        if i < v.len() && v[i].sn == rec.sn && str_eq(v[i].time.as_str(), rec.time.as_str()) {
            assert(has_key(s, k));
            self.entries = v;
            return;
        }
        proof {
            assert forall|j: int| i <= j < s.len() implies key_lt(k, #[trigger] s[j].0) by {
                lemma_key_lt_order(s[i as int].0, k, s[j].0);
                lemma_key_lt_order(k, s[i as int].0, s[j].0);
            }
            assert forall|j: int| i <= j < s.len() implies !key_lt(#[trigger] s[j].0, k) by {
                lemma_key_lt_order(k, s[j].0, k);
            }
            assert(!has_key(s, k)) by {
                if has_key(s, k) {
                    let j = choose|j: int| 0 <= j < s.len() && (#[trigger] s[j]).0 == k;
                    lemma_key_lt_order(k, k, k);
                }
            }
            lemma_count_below_at(s, k, i as int);
        }
        let content = extract_content(&rec.user_name, rec.is_self as usize, &rec.content);
        let e = RecentEntry { time: rec.time.clone(), sn: rec.sn, content };
        let ghost ev = ((e.time@, e.sn), e.content@);
        assert(ev == record_entry(*rec));
        v.insert(i, e);
        assert(entries_view(v@) =~= s.insert(i as int, ev));
        proof {
            let r = s.insert(i as int, ev);
            assert forall|a: int, b: int| 0 <= a < b < r.len() implies key_lt(#[trigger] r[a].0, #[trigger] r[b].0) by {
                if b < i {
                    assert(r[a] == s[a] && r[b] == s[b]);
                } else if b == i {
                    assert(r[a] == s[a]);
                } else if a == i {
                    assert(r[b] == s[b - 1]);
                } else if a < i {
                    assert(r[a] == s[a] && r[b] == s[b - 1]);
                    lemma_key_lt_order(s[a].0, k, s[b - 1].0);
                } else {
                    assert(r[a] == s[a - 1] && r[b] == s[b - 1]);
                }
            }
        }
        self.entries = v;
    }

    /// Takes in every record of a query reply, group after group (see [`absorb_all`]).
    pub fn absorb_groups(&mut self, groups: &Vec<Vec<StoredRecord>>)
        ensures
            final(self)@ == absorb_all(old(self)@, flat_groups(groups@)),
            keys_ascending(final(self)@),
    {
        proof { use_type_invariant(&*self); }
        let ghost s0 = self@;
        let mut gi: usize = 0;
        while gi < groups.len()
            invariant
                gi <= groups.len(),
                self@ == absorb_all(s0, flat_groups(groups@.take(gi as int))),
                keys_ascending(self@),
            decreases groups.len() - gi,
        {
            let g = &groups[gi];
            let ghost before = flat_groups(groups@.take(gi as int));
            let mut ri: usize = 0;
            while ri < g.len()
                invariant
                    ri <= g.len(),
                    g == groups@[gi as int],
                    self@ == absorb_all(s0, before + g@.take(ri as int)),
                    keys_ascending(self@),
                decreases g.len() - ri,
            {
                let ghost rs = before + g@.take(ri as int);
                assert((before + g@.take(ri + 1)).drop_last() =~= rs);
                assert((before + g@.take(ri + 1)).last() == g@[ri as int]);
                self.absorb(&g[ri]);
                ri = ri + 1;
            }
            proof {
                assert(g@.take(g.len() as int) =~= g@);
                assert(groups@.take(gi + 1).drop_last() =~= groups@.take(gi as int));
                assert(groups@.take(gi + 1).last() == groups@[gi as int]);
            }
            gi = gi + 1;
        }
        assert(groups@.take(groups.len() as int) =~= groups@);
    }

    /// The time of the oldest record, if any.
    pub fn oldest_time(&self) -> (r: Option<String>)
        ensures
            self@.len() == 0 ==> r is None,
            self@.len() > 0 ==> (r matches Some(t) && t@ == self@[0].0.0),
    {
        if self.entries.len() == 0 {
            None
        } else {
            assert(self@[0].0.0 == self.entries@[0].time@);
            Some(self.entries[0].time.clone())
        }
    }

    /// The held records' contents in key order.
    pub fn into_contents(self) -> (r: Vec<MessageContent>)
        ensures
            contents_view(r@) == self@.map_values(|e: ((Seq<char>, u64), MessageContentView)| e.1),
    {
        let ghost s = self@;
        let mut out: Vec<MessageContent> = Vec::new();
        let mut i: usize = 0;
        while i < self.entries.len()
            invariant
                i <= self.entries.len(),
                s == entries_view(self.entries@),
                contents_view(out@) == s.take(i as int).map_values(|e: ((Seq<char>, u64), MessageContentView)| e.1),
            decreases self.entries.len() - i,
        {
            let ghost before = contents_view(out@);
            out.push(self.entries[i].content.duplicate());
            assert(contents_view(out@) =~= before.push(s[i as int].1));
            assert(s.take(i + 1).map_values(|e: ((Seq<char>, u64), MessageContentView)| e.1)
                =~= s.take(i as int).map_values(|e: ((Seq<char>, u64), MessageContentView)| e.1).push(s[i as int].1));
            i = i + 1;
        }
        assert(s.take(s.len() as int) =~= s);
        out
    }
}

/// What the recall does after the first query.
#[derive(Debug)]
pub enum RecallStep {
    /// The records held are the answer.
    Done,
    /// Query every record with a time from `start` to `end` (both included) as well.
    Range { start: String, end: String },
}

/// The step after the first query brought `records` for `count` wanted records: done when
/// nothing came back or fewer than `count` records; otherwise a query from the earlier of
/// the window start and the oldest record's time up to that oldest time.
pub fn second_query(records: &RecentRecords, count: usize, window_start: &str) -> (r: RecallStep)
    ensures
        records@.len() == 0 || records@.len() < count ==> r is Done,
        records@.len() > 0 && records@.len() >= count ==> (r matches RecallStep::Range { start, end }
            && end@ == records@[0].0.0
            && start@ == (if text_lt(window_start@, records@[0].0.0) { window_start@ } else { records@[0].0.0 })),
{
    match records.oldest_time() {
        None => RecallStep::Done,
        Some(ln) => {
            if records.len() < count {
                RecallStep::Done
            } else if text_less(window_start, ln.as_str()) {
                RecallStep::Range { start: crate::text::owned(window_start), end: ln }
            } else {
                let start = ln.clone();
                RecallStep::Range { start, end: ln }
            }
        },
    }
}

} // verus!
