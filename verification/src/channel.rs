//! Per-channel runtime state: the ids of messages the agent sent recently (so that their
//! echoes are recognised and dropped) and the conversation mode. Times are milliseconds.
use vstd::prelude::*;
use crate::registry::{key_views, Registry};
use crate::text::owned;
use crate::nexus_repo::{NexusRepo, NexusRepoView};
use crate::types::{Mode, ModeView, SessionKey, SessionKeyView};

verus! {

/// How long a sent message id is remembered (milliseconds).
pub const CHANNEL_CONTEXT_TTL_MS: u64 = 60_000;

/// Milliseconds from `t` to `now` (0 when `now` is earlier).
pub open spec fn elapsed(t: u64, now: u64) -> u64 {
    if now >= t { (now - t) as u64 } else { 0 }
}

/// The remembered ids that are younger than `ttl` at `now`.
pub open spec fn fresh(m: Map<Seq<char>, u64>, ttl: u64, now: u64) -> Map<Seq<char>, u64> {
    Map::new(|k: Seq<char>| m.dom().contains(k) && elapsed(m[k], now) < ttl, |k: Seq<char>| m[k])
}

/// The runtime state of one channel.
pub struct Channel {
    pending_outgoing: Registry<String, u64>,
    mode: Mode,
}

/// Mathematical model of [`Channel`]: remembered ids with the time each was sent, and the mode.
pub ghost struct ChannelView {
    pub pending: Map<Seq<char>, u64>,
    pub mode: ModeView,
}

impl View for Channel {
    type V = ChannelView;

    closed spec fn view(&self) -> ChannelView {
        ChannelView { pending: self.pending_outgoing@, mode: self.mode@ }
    }
}

impl Channel {
    /// Nothing remembered, role mode.
    pub fn new() -> (r: Channel)
        ensures
            r@.pending == Map::<Seq<char>, u64>::empty(),
            r@.mode == ModeView::Role,
    {
        Channel { pending_outgoing: Registry::new(), mode: Mode::Role }
    }

    /// Forgets the ids at least `ttl` old at `now`.
    pub fn evict(&mut self, ttl: u64, now: u64)
        ensures
            final(self)@ == (ChannelView { pending: fresh(old(self)@.pending, ttl, now), ..old(self)@ }),
    {
        let n = self.pending_outgoing.len();
        let ghost m = self.pending_outgoing@;
        let mut kept: Registry<String, u64> = Registry::new();
        let mut i: usize = 0;
        while i < n
            invariant
                i <= n,
                n == self.pending_outgoing.pairs().len(),
                m == self.pending_outgoing@,
                forall|k: Seq<char>| #[trigger] m.dom().contains(k) ==> exists|j: int| 0 <= j < n && self.pending_outgoing.pairs()[j].0 == k,
                kept@ == Map::new(
                    |k: Seq<char>| exists|j: int| 0 <= j < i && #[trigger] self.pending_outgoing.pairs()[j].0 == k && m.dom().contains(k)
                        && elapsed(m[k], now) < ttl,
                    |k: Seq<char>| m[k],
                ),
            decreases n - i,
        {
            let (k, t) = self.pending_outgoing.entry_at(i);
            let ghost before = kept@;
            if elapsed_ms(*t, now) < ttl {
                kept.insert(k.clone(), *t);
            }
            assert(kept@ =~= Map::new(
                |kk: Seq<char>| exists|j: int| 0 <= j < i + 1 && #[trigger] self.pending_outgoing.pairs()[j].0 == kk && m.dom().contains(kk)
                    && elapsed(m[kk], now) < ttl,
                |kk: Seq<char>| m[kk],
            )) by {
                assert(self.pending_outgoing.pairs()[i as int].0 == k@);
            }
            i = i + 1;
        }
        assert(kept@ =~= fresh(m, ttl, now));
        self.pending_outgoing = kept;
    }

    /// Remembers `msg_id` as sent at `now`, after forgetting the ids that are too old.
    pub fn add_pending(&mut self, msg_id: String, now: u64)
        ensures
            final(self)@ == (ChannelView {
                pending: fresh(old(self)@.pending, CHANNEL_CONTEXT_TTL_MS, now).insert(msg_id@, now),
                ..old(self)@
            }),
    {
        self.evict(CHANNEL_CONTEXT_TTL_MS, now);
        self.pending_outgoing.insert(msg_id, now);
    }

    /// Whether `msg_id` is a remembered id; it is forgotten when it is. Otherwise the ids
    /// that are too old are forgotten.
    pub fn consume_pending(&mut self, msg_id: &str, now: u64) -> (r: bool)
        ensures
            r == old(self)@.pending.dom().contains(msg_id@),
            r ==> final(self)@ == (ChannelView { pending: old(self)@.pending.remove(msg_id@), ..old(self)@ }),
            !r ==> final(self)@ == (ChannelView { pending: fresh(old(self)@.pending, CHANNEL_CONTEXT_TTL_MS, now), ..old(self)@ }),
    {
        let key = owned(msg_id);
        if self.pending_outgoing.contains_key(&key) {
            self.pending_outgoing.remove(&key);
            true
        } else {
            self.evict(CHANNEL_CONTEXT_TTL_MS, now);
            false
        }
    }

    /// Sets the conversation mode.
    pub fn set_mode(&mut self, mode: Mode)
        ensures
            final(self)@ == (ChannelView { mode: mode@, ..old(self)@ }),
    {
        self.mode = mode;
    }

    /// The conversation mode.
    pub fn mode(&self) -> (r: Mode)
        ensures
            r@ == self@.mode,
    {
        self.mode.duplicate()
    }
}

/// Milliseconds from `t` to `now` (see [`elapsed`]).
fn elapsed_ms(t: u64, now: u64) -> (r: u64)
    ensures
        r == elapsed(t, now),
{
    if now >= t { now - t } else { 0 }
}

/// The runtime state of all channels, by channel id.
pub struct ChannelManager {
    channels: Registry<String, Channel>,
}

impl View for ChannelManager {
    type V = Map<Seq<char>, ChannelView>;

    closed spec fn view(&self) -> Map<Seq<char>, ChannelView> {
        self.channels@
    }
}

/// The state of a channel, or a fresh one when it has none yet.
pub open spec fn channel_or_new(m: Map<Seq<char>, ChannelView>, id: Seq<char>) -> ChannelView {
    if m.dom().contains(id) {
        m[id]
    } else {
        ChannelView { pending: Map::empty(), mode: ModeView::Role }
    }
}

impl ChannelManager {
    /// No channel state.
    pub fn new() -> (r: ChannelManager)
        ensures
            r@ == Map::<Seq<char>, ChannelView>::empty(),
    {
        ChannelManager { channels: Registry::new() }
    }

    /// Takes the state of `channel_id` out (a fresh state when there is none).
    fn take_or_create(&mut self, channel_id: &str) -> (r: (String, Channel))
        ensures
            r.0@ == channel_id@,
            r.1@ == channel_or_new(old(self)@, channel_id@),
            final(self)@ == old(self)@.remove(channel_id@),
    {
        let key = owned(channel_id);
        match self.channels.take(&key) {
            Some(c) => (key, c),
            None => (key, Channel::new()),
        }
    }

    /// Remembers `msg_id` as sent on `channel_id` at `now` (see [`Channel::add_pending`]).
    pub fn add_pending(&mut self, channel_id: &str, msg_id: String, now: u64)
        ensures
            final(self)@ == old(self)@.insert(channel_id@, ChannelView {
                pending: fresh(channel_or_new(old(self)@, channel_id@).pending, CHANNEL_CONTEXT_TTL_MS, now).insert(msg_id@, now),
                ..channel_or_new(old(self)@, channel_id@)
            }),
    {
        let (key, mut c) = self.take_or_create(channel_id);
        c.add_pending(msg_id, now);
        self.channels.insert(key, c);
        assert(self@ =~= old(self)@.insert(channel_id@, c@));
    }

    /// Whether `msg_id` is an echo of a message sent on `channel_id` (see
    /// [`Channel::consume_pending`]); a channel without state has none.
    pub fn consume_pending(&mut self, channel_id: &str, msg_id: &str, now: u64) -> (r: bool)
        ensures
            !old(self)@.dom().contains(channel_id@) ==> !r && final(self)@ == old(self)@,
            old(self)@.dom().contains(channel_id@) ==> {
                let c = old(self)@[channel_id@];
                &&& r == c.pending.dom().contains(msg_id@)
                &&& r ==> final(self)@ == old(self)@.insert(channel_id@, ChannelView { pending: c.pending.remove(msg_id@), ..c })
                &&& !r ==> final(self)@ == old(self)@.insert(channel_id@, ChannelView {
                    pending: fresh(c.pending, CHANNEL_CONTEXT_TTL_MS, now),
                    ..c
                })
            },
    {
        let key = owned(channel_id);
        match self.channels.take(&key) {
            Some(mut c) => {
                let r = c.consume_pending(msg_id, now);
                self.channels.insert(key, c);
                r
            },
            None => false,
        }
    }

    /// Sets the conversation mode of `channel_id`.
    pub fn set_mode(&mut self, channel_id: &str, mode: Mode)
        ensures
            final(self)@ == old(self)@.insert(channel_id@, ChannelView { mode: mode@, ..channel_or_new(old(self)@, channel_id@) }),
    {
        let (key, mut c) = self.take_or_create(channel_id);
        c.set_mode(mode);
        self.channels.insert(key, c);
        assert(self@ =~= old(self)@.insert(channel_id@, c@));
    }

    /// The conversation mode of `channel_id` (role mode when it has no state).
    pub fn mode(&self, channel_id: &str) -> (r: Mode)
        ensures
            r@ == channel_or_new(self@, channel_id@).mode,
    {
        let key = owned(channel_id);
        match self.channels.get(&key) {
            Some(c) => c.mode(),
            None => Mode::Role,
        }
    }

    /// The session a message on `channel_id` belongs to: the channel's agent and role with
    /// its current mode; none for an unknown channel.
    pub fn session_key(&self, repo: &NexusRepo, channel_id: &str) -> (r: Option<SessionKey>)
        ensures
            match r {
                Some(k) => repo@.channels.dom().contains(channel_id@) && k@ == (SessionKeyView {
                    agent_id: repo@.channels[channel_id@].agent_id,
                    role_name: repo@.channels[channel_id@].role_name,
                    mode: channel_or_new(self@, channel_id@).mode,
                }),
                None => !repo@.channels.dom().contains(channel_id@),
            },
    {
        match repo.channel(channel_id) {
            Some(ch) => Some(SessionKey { agent_id: ch.agent_id, role_name: ch.role_name, mode: self.mode(channel_id) }),
            None => None,
        }
    }
}


/// The session of configured channel `c` in the manager's state `m`.
pub open spec fn channel_session(repo: NexusRepoView, m: Map<Seq<char>, ChannelView>, c: Seq<char>) -> SessionKeyView {
    SessionKeyView {
        agent_id: repo.channels[c].agent_id,
        role_name: repo.channels[c].role_name,
        mode: channel_or_new(m, c).mode,
    }
}

impl ChannelManager {
    /// The sessions the configured channels lead to now (each channel's agent and role in its
    /// current mode); sessions outside this set have no channel left and are dropped.
    pub fn bound_session_keys(&self, repo: &NexusRepo) -> (r: Vec<SessionKey>)
        ensures
            forall|k: SessionKeyView| key_views(r@).contains(k) <==>
                exists|c: Seq<char>| #[trigger] repo@.channels.dom().contains(c) && k == channel_session(repo@, self@, c),
    {
        let n = repo.channels.len();
        let mut out: Vec<SessionKey> = Vec::new();
        let mut i: usize = 0;
        while i < n
            invariant
                i <= n,
                n == repo.channels.pairs().len(),
                forall|k: Seq<char>| #[trigger] repo@.channels.dom().contains(k) ==> exists|j: int| 0 <= j < n && repo.channels.pairs()[j].0 == k,
                forall|j: int| 0 <= j < i ==> repo@.channels.dom().contains(#[trigger] repo.channels.pairs()[j].0),
                forall|k: SessionKeyView| #[trigger] key_views(out@).contains(k) <==>
                    exists|j: int| 0 <= j < i && k == channel_session(repo@, self@, #[trigger] repo.channels.pairs()[j].0),
            decreases n - i,
        {
            let (cid, ch) = repo.channels.entry_at(i);
            let key = SessionKey {
                agent_id: ch.agent_id.clone(),
                role_name: ch.role_name.clone(),
                mode: self.mode(cid.as_str()),
            };
            let ghost before = key_views(out@);
            let ghost kv = key@;
            assert(kv == channel_session(repo@, self@, repo.channels.pairs()[i as int].0));
            out.push(key);
            assert(key_views(out@) =~= before.push(kv));
            assert forall|k: SessionKeyView| #[trigger] key_views(out@).contains(k) <==>
                exists|j: int| 0 <= j < i + 1 && k == channel_session(repo@, self@, #[trigger] repo.channels.pairs()[j].0) by {
                let dv = key_views(out@);
                if dv.contains(k) {
                    let x = choose|x: int| 0 <= x < dv.len() && dv[x] == k;
                    if x < before.len() {
                        assert(before[x] == k);
                        assert(before.contains(k));
                    }
                }
                if exists|j: int| 0 <= j < i + 1 && k == channel_session(repo@, self@, #[trigger] repo.channels.pairs()[j].0) {
                    let j = choose|j: int| 0 <= j < i + 1 && k == channel_session(repo@, self@, #[trigger] repo.channels.pairs()[j].0);
                    if j < i {
                        assert(before.contains(k));
                        let x = choose|x: int| 0 <= x < before.len() && before[x] == k;
                        assert(dv[x] == k);
                    } else {
                        assert(dv[before.len() as int] == k);
                    }
                }
            }
            i = i + 1;
        }
        assert forall|k: SessionKeyView| key_views(out@).contains(k) <==>
            exists|c: Seq<char>| #[trigger] repo@.channels.dom().contains(c) && k == channel_session(repo@, self@, c) by {
            if key_views(out@).contains(k) {
                let j = choose|j: int| 0 <= j < n && k == channel_session(repo@, self@, #[trigger] repo.channels.pairs()[j].0);
                assert(repo@.channels.dom().contains(repo.channels.pairs()[j].0));
            }
            if exists|c: Seq<char>| #[trigger] repo@.channels.dom().contains(c) && k == channel_session(repo@, self@, c) {
                let c = choose|c: Seq<char>| #[trigger] repo@.channels.dom().contains(c) && k == channel_session(repo@, self@, c);
                let j = choose|j: int| 0 <= j < n && repo.channels.pairs()[j].0 == c;
                assert(k == channel_session(repo@, self@, repo.channels.pairs()[j].0));
            }
        }
        out
    }
}

} // verus!
