//! Batching channel messages: the deadline rule that decides when a batch is sent, and the
//! packing of a batch into one user text. Times are milliseconds from a fixed start.
use vstd::prelude::*;
use crate::message::{collect_text_parts, spec_user_line, text_parts, user_line, IncomingMessageEvent};
use crate::text::{join_lines, join_newline, push_char, strs_view};

verus! {

/// A wake-up of the batching task.
#[derive(Debug, Clone, Copy, PartialEq, Eq)]
pub enum Trigger {
    /// Check at this time whether the current deadline has passed (it may have been pushed back).
    At(u64),
    /// Send now (used by a context reset).
    Forced,
}

/// The deadline after asking for one at `at`: the requested time (at least 1, since 0 means
/// "no deadline") unless a later deadline is already set; a deadline only moves later.
pub open spec fn spec_next_deadline(cur: u64, at: u64) -> u64 {
    let new = if at < 1 { 1 } else { at };
    if cur != 0 && new <= cur { cur } else { new }
}

/// Whether a check at `now` sends the batch: when forced, or when a deadline is set and has passed.
pub open spec fn spec_should_flush(force: bool, deadline: u64, now: u64) -> bool {
    force || (deadline != 0 && now >= deadline)
}

/// The send deadline of one session's batch (0: nothing waits).
#[derive(Debug, Clone, Copy)]
pub struct BatchDeadline {
    pub deadline: u64,
}

impl BatchDeadline {
    /// Nothing waits.
    pub fn new() -> (r: BatchDeadline)
        ensures
            r.deadline == 0,
    {
        BatchDeadline { deadline: 0 }
    }

    /// Asks for a send at `at` (see [`spec_next_deadline`]).
    pub fn set_deadline(&mut self, at: u64)
        ensures
            final(self).deadline == spec_next_deadline(old(self).deadline, at),
    {
        let new = if at < 1 { 1 } else { at };
        if self.deadline != 0 && new <= self.deadline {
            return;
        }
        self.deadline = new;
    }

    /// A check at `now`: when the batch is due (see [`spec_should_flush`]) the deadline is
    /// cleared and `true` returned; otherwise nothing changes.
    pub fn take_due(&mut self, force: bool, now: u64) -> (r: bool)
        ensures
            r == spec_should_flush(force, old(self).deadline, now),
            r ==> final(self).deadline == 0,
            !r ==> final(self).deadline == old(self).deadline,
    {
        if force || (self.deadline != 0 && now >= self.deadline) {
            self.deadline = 0;
            true
        } else {
            false
        }
    }
}

/// The line of one event: `name: text` (the text alone when the name is empty), the text
/// being the event's text segments joined by newlines.
pub open spec fn event_line(e: IncomingMessageEvent) -> Seq<char> {
    spec_user_line(e.incoming_message.user_name@, join_lines(text_parts(e.incoming_message.content)))
}

/// The lines of a batch, one per event in order.
pub open spec fn event_lines(evs: Seq<IncomingMessageEvent>) -> Seq<Seq<char>> {
    evs.map_values(|e: IncomingMessageEvent| event_line(e))
}

/// Packs a batch into one text: one line per event (see [`event_line`]), joined by newlines.
pub fn pack_events(events: &Vec<IncomingMessageEvent>) -> (r: String)
    ensures
        r@ == join_lines(event_lines(events@)),
{
    let mut lines: Vec<String> = Vec::new();
    let mut i: usize = 0;
    while i < events.len()
        invariant
            i <= events.len(),
            strs_view(lines@) =~= event_lines(events@.take(i as int)),
        decreases events.len() - i,
    {
        let m = &events[i].incoming_message;
        let mut parts: Vec<String> = Vec::new();
        collect_text_parts(&m.content, &mut parts);
        assert(strs_view(parts@) =~= text_parts(m.content));
        let text = join_newline(&parts);
        let line = user_line(m.user_name.as_str(), text.as_str());
        let ghost before = strs_view(lines@);
        lines.push(line);
        assert(strs_view(lines@) =~= before.push(line@));
        assert(events@.take(i + 1) =~= events@.take(i as int).push(events@[i as int]));
        i = i + 1;
    }
    assert(events@.take(events.len() as int) =~= events@);
    join_newline(&lines)
}

} // verus!
