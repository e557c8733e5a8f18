//! The agent's editable configuration: channels, model providers, memory structures, the
//! per-agent settings and the per-session cache of settings in effect.
use vstd::prelude::*;
use crate::agent_role::{after_set, built, AgentRoleConfig, AgentRoleConfigView, OptionArcField};
use crate::configs::{OutChannel, OutChannelConfig};
use crate::effective::{SessionConfigField, SessionConfigMap, SessionConfigMapView, empty_session_view};
use crate::error::AgentError;
use crate::registry::Registry;
use crate::text::{owned, push_str, str_eq};
use crate::types::{ChannelUser, SessionKey, SessionKeyView};

verus! {

/// Request timeout when neither the model nor the provider sets one (seconds).
pub const DEFAULT_TIMEOUT_SECS: u64 = 60;

/// Retries when neither the model nor the provider sets a count.
pub const DEFAULT_RETRY_COUNT: u32 = 3;

// ---------- providers ----------

/// A provider name with one of its model names.
#[derive(Debug, Clone)]
pub struct ProviderModel {
    pub provider: String,
    pub model: String,
}

/// How to reach a provider: its API kind (`openai` or `anthropic`), URL prefix and key.
#[derive(Debug, Clone)]
pub struct ProviderConfig {
    pub provider_type: String,
    pub base_url: String,
    pub api_key: String,
}

/// Mathematical model of [`ProviderConfig`].
pub ghost struct ProviderConfigView {
    pub provider_type: Seq<char>,
    pub base_url: Seq<char>,
    pub api_key: Seq<char>,
}

impl View for ProviderConfig {
    type V = ProviderConfigView;

    open spec fn view(&self) -> ProviderConfigView {
        ProviderConfigView { provider_type: self.provider_type@, base_url: self.base_url@, api_key: self.api_key@ }
    }
}

impl ProviderConfig {
    /// A copy with the same model.
    pub fn duplicate(&self) -> (r: ProviderConfig)
        ensures
            r@ == self@,
    {
        ProviderConfig {
            provider_type: self.provider_type.clone(),
            base_url: self.base_url.clone(),
            api_key: self.api_key.clone(),
        }
    }
}

/// Model parameters that a model may override over its provider's defaults.
#[derive(Debug, Clone, Copy, Default)]
pub struct ModelConfig {
    pub max_tokens_usage: u32,
    pub timeout_secs: Option<u64>,
    pub retry_count: Option<u32>,
}

impl View for ModelConfig {
    type V = ModelConfig;

    open spec fn view(&self) -> ModelConfig {
        *self
    }
}

/// `top` merged over `base`: the token budget is `top`'s, the optional parameters are
/// `top`'s where it sets them.
pub open spec fn model_layered(base: ModelConfig, top: ModelConfig) -> ModelConfig {
    ModelConfig {
        max_tokens_usage: top.max_tokens_usage,
        timeout_secs: if top.timeout_secs is Some { top.timeout_secs } else { base.timeout_secs },
        retry_count: if top.retry_count is Some { top.retry_count } else { base.retry_count },
    }
}

/// A value that a setting of kind `C` can be merged over.
pub trait MergeBy<C: View>: View + Sized {
    /// The value after merging `c` over `v`.
    spec fn merged(v: Self::V, c: C::V) -> Self::V;

    /// Merges `other` over `self` (see [`MergeBy::merged`]).
    fn merge(&mut self, other: &C)
        ensures
            final(self)@ == Self::merged(old(self)@, other@);
}

impl MergeBy<ModelConfig> for ModelConfig {
    open spec fn merged(v: ModelConfig, c: ModelConfig) -> ModelConfig {
        model_layered(v, c)
    }

    fn merge(&mut self, other: &ModelConfig) {
        self.max_tokens_usage = other.max_tokens_usage;
        if let Some(t) = other.timeout_secs {
            self.timeout_secs = Some(t);
        }
        if let Some(r) = other.retry_count {
            self.retry_count = Some(r);
        }
    }
}

/// The parameters in effect for one model of a provider.
#[derive(Debug, Clone)]
pub struct EffectiveModelConfig {
    pub provider_config: ProviderConfig,
    pub max_tokens_usage: u32,
    pub timeout_secs: u64,
    pub retry_count: u32,
}

/// Mathematical model of [`EffectiveModelConfig`].
pub ghost struct EffectiveModelConfigView {
    pub provider_config: ProviderConfigView,
    pub max_tokens_usage: u32,
    pub timeout_secs: u64,
    pub retry_count: u32,
}

impl View for EffectiveModelConfig {
    type V = EffectiveModelConfigView;

    open spec fn view(&self) -> EffectiveModelConfigView {
        EffectiveModelConfigView {
            provider_config: self.provider_config@,
            max_tokens_usage: self.max_tokens_usage,
            timeout_secs: self.timeout_secs,
            retry_count: self.retry_count,
        }
    }
}

/// `m` merged over the global defaults.
pub open spec fn effective_of(pc: ProviderConfigView, m: ModelConfig) -> EffectiveModelConfigView {
    EffectiveModelConfigView {
        provider_config: pc,
        max_tokens_usage: m.max_tokens_usage,
        timeout_secs: match m.timeout_secs {
            Some(t) => t,
            None => DEFAULT_TIMEOUT_SECS,
        },
        retry_count: match m.retry_count {
            Some(r) => r,
            None => DEFAULT_RETRY_COUNT,
        },
    }
}

impl MergeBy<ModelConfig> for EffectiveModelConfig {
    /// The token budget is replaced, the optional parameters where set.
    open spec fn merged(v: EffectiveModelConfigView, c: ModelConfig) -> EffectiveModelConfigView {
        EffectiveModelConfigView {
            provider_config: v.provider_config,
            max_tokens_usage: c.max_tokens_usage,
            timeout_secs: match c.timeout_secs {
                Some(t) => t,
                None => v.timeout_secs,
            },
            retry_count: match c.retry_count {
                Some(r) => r,
                None => v.retry_count,
            },
        }
    }

    fn merge(&mut self, other: &ModelConfig) {
        self.max_tokens_usage = other.max_tokens_usage;
        if let Some(t) = other.timeout_secs {
            self.timeout_secs = t;
        }
        if let Some(r) = other.retry_count {
            self.retry_count = r;
        }
    }
}

impl EffectiveModelConfig {
    /// The global defaults for the given provider: no token budget, the default timeout and
    /// retry count.
    pub fn new(provider_config: ProviderConfig) -> (r: EffectiveModelConfig)
        ensures
            r@ == (EffectiveModelConfigView {
                provider_config: provider_config@,
                max_tokens_usage: 0,
                timeout_secs: DEFAULT_TIMEOUT_SECS,
                retry_count: DEFAULT_RETRY_COUNT,
            }),
    {
        EffectiveModelConfig {
            provider_config,
            max_tokens_usage: 0,
            timeout_secs: DEFAULT_TIMEOUT_SECS,
            retry_count: DEFAULT_RETRY_COUNT,
        }
    }

}

/// A provider: how to reach it, its default model parameters and per-model overrides.
pub struct ProviderModelConfig {
    pub provider_config: ProviderConfig,
    pub default_model_config: ModelConfig,
    pub model_configs: Registry<String, ModelConfig>,
}

/// Mathematical model of [`ProviderModelConfig`].
pub ghost struct ProviderModelConfigView {
    pub provider_config: ProviderConfigView,
    pub default_model_config: ModelConfig,
    pub model_configs: Map<Seq<char>, ModelConfig>,
}

impl View for ProviderModelConfig {
    type V = ProviderModelConfigView;

    open spec fn view(&self) -> ProviderModelConfigView {
        ProviderModelConfigView {
            provider_config: self.provider_config@,
            default_model_config: self.default_model_config,
            model_configs: self.model_configs@,
        }
    }
}

/// The parameters in effect for `model`: global defaults, under the provider's defaults,
/// under the model's own overrides when it has any.
pub open spec fn effective_model(p: ProviderModelConfigView, model: Seq<char>) -> EffectiveModelConfigView {
    let m = if p.model_configs.dom().contains(model) {
        model_layered(p.default_model_config, p.model_configs[model])
    } else {
        p.default_model_config
    };
    effective_of(p.provider_config, m)
}

impl ProviderModelConfig {
    /// The parameters in effect for `model_name` (see [`effective_model`]).
    pub fn get_effective_config(&self, model_name: &str) -> (r: EffectiveModelConfig)
        ensures
            r@ == effective_model(self@, model_name@),
    {
        let mut config = self.default_model_config;
        let key = owned(model_name);
        match self.model_configs.get(&key) {
            Some(m) => config.merge(m),
            None => {},
        }
        let mut effective = EffectiveModelConfig::new(self.provider_config.duplicate());
        effective.merge(&config);
        effective
    }
}

// ---------- memory structures ----------

/// A memory structure service: its name and URL.
#[derive(Debug, Clone)]
pub struct MemoryStructConfig {
    pub name: String,
    pub url: String,
}

impl View for MemoryStructConfig {
    type V = (Seq<char>, Seq<char>);

    open spec fn view(&self) -> (Seq<char>, Seq<char>) {
        (self.name@, self.url@)
    }
}

impl MemoryStructConfig {
    /// A copy with the same model.
    pub fn duplicate(&self) -> (r: MemoryStructConfig)
        ensures
            r@ == self@,
    {
        MemoryStructConfig { name: self.name.clone(), url: self.url.clone() }
    }
}

// ---------- channels ----------

/// The models of a list of identities, as a set.
pub open spec fn user_set(v: Seq<ChannelUser>) -> Set<(Seq<char>, Seq<char>)> {
    v.map_values(|u: ChannelUser| u@).to_set()
}

/// Whether `u` is among `v`.
pub fn users_contain(v: &Vec<ChannelUser>, u: &ChannelUser) -> (r: bool)
    ensures
        r == user_set(v@).contains(u@),
{
    let mut i: usize = 0;
    while i < v.len()
        invariant
            i <= v.len(),
            forall|j: int| 0 <= j < i ==> v@[j]@ != u@,
        decreases v.len() - i,
    {
        if v[i].same_as(u) {
            assert(v@.map_values(|x: ChannelUser| x@)[i as int] == u@);
            return true;
        }
        i = i + 1;
    }
    proof {
        if user_set(v@).contains(u@) {
            let uv = v@.map_values(|x: ChannelUser| x@);
            let k = choose|k: int| 0 <= k < uv.len() && #[trigger] uv[k] == u@;
            assert(v@[k]@ == u@);
        }
    }
    false
}

/// Adds `u` to the set `v`.
pub fn users_insert(v: &mut Vec<ChannelUser>, u: &ChannelUser)
    ensures
        user_set(final(v)@) == user_set(old(v)@).insert(u@),
{
    if !users_contain(v, u) {
        let ghost before = v@;
        v.push(u.duplicate());
        assert(v@.map_values(|x: ChannelUser| x@) =~= before.map_values(|x: ChannelUser| x@).push(u@));
        proof { before.map_values(|x: ChannelUser| x@).lemma_push_to_set_commute(u@); }
    } else {
        assert(user_set(v@).insert(u@) =~= user_set(v@));
    }
}

/// Removes `u` from the set `v`.
pub fn users_remove(v: &mut Vec<ChannelUser>, u: &ChannelUser)
    ensures
        user_set(final(v)@) == user_set(old(v)@).remove(u@),
{
    let ghost src = v@;
    let mut kept: Vec<ChannelUser> = Vec::new();
    let mut i: usize = 0;
    assert(src.subrange(0, 0).map_values(|x: ChannelUser| x@).to_set() =~= Set::<(Seq<char>, Seq<char>)>::empty());
    assert(kept@.map_values(|x: ChannelUser| x@).to_set() =~= Set::<(Seq<char>, Seq<char>)>::empty());
    while i < v.len()
        invariant
            i <= v.len(),
            v@ == src,
            user_set(kept@) == user_set(src.subrange(0, i as int)).remove(u@),
        decreases v.len() - i,
    {
        let ghost pre = src.subrange(0, i as int);
        let ghost post = src.subrange(0, i + 1);
        assert(post =~= pre.push(src[i as int]));
        assert(post.map_values(|x: ChannelUser| x@) =~= pre.map_values(|x: ChannelUser| x@).push(src[i as int]@));
        proof { pre.map_values(|x: ChannelUser| x@).lemma_push_to_set_commute(src[i as int]@); }
        if !v[i].same_as(u) {
            let ghost kbefore = kept@;
            kept.push(v[i].duplicate());
            assert(kept@.map_values(|x: ChannelUser| x@) =~= kbefore.map_values(|x: ChannelUser| x@).push(src[i as int]@));
            proof { kbefore.map_values(|x: ChannelUser| x@).lemma_push_to_set_commute(src[i as int]@); }
            assert(user_set(kept@) =~= user_set(post).remove(u@));
        } else {
            assert(user_set(kept@) =~= user_set(post).remove(u@));
        }
        i = i + 1;
    }
    assert(src.subrange(0, src.len() as int) =~= src);
    *v = kept;
}

/// A channel the agent connects to: where, who administers it, which identities are bound
/// to it, and which agent and role answer on it.
#[derive(Debug, Clone)]
pub struct ChannelConfig {
    pub channel_id: String,
    pub ws_url: String,
    pub admins: Vec<ChannelUser>,
    pub bind_users: Vec<ChannelUser>,
    pub agent_id: String,
    pub role_name: String,
    pub enabled: bool,
}

/// Mathematical model of [`ChannelConfig`].
pub ghost struct ChannelConfigView {
    pub channel_id: Seq<char>,
    pub ws_url: Seq<char>,
    pub admins: Set<(Seq<char>, Seq<char>)>,
    pub bind_users: Set<(Seq<char>, Seq<char>)>,
    pub agent_id: Seq<char>,
    pub role_name: Seq<char>,
    pub enabled: bool,
}

impl View for ChannelConfig {
    type V = ChannelConfigView;

    open spec fn view(&self) -> ChannelConfigView {
        ChannelConfigView {
            channel_id: self.channel_id@,
            ws_url: self.ws_url@,
            admins: user_set(self.admins@),
            bind_users: user_set(self.bind_users@),
            agent_id: self.agent_id@,
            role_name: self.role_name@,
            enabled: self.enabled,
        }
    }
}

/// The agent id a channel stores for a configured id: the reserved agent `"0"` for an empty id.
pub open spec fn normalized_agent_id(id: Seq<char>) -> Seq<char> {
    if id.len() == 0 { "0"@ } else { id }
}

/// Copies the identities of `v`.
fn copy_users(v: &Vec<ChannelUser>) -> (r: Vec<ChannelUser>)
    ensures
        r@ == v@,
{
    let mut r: Vec<ChannelUser> = Vec::new();
    let mut i: usize = 0;
    while i < v.len()
        invariant
            i <= v.len(),
            r@ == v@.subrange(0, i as int),
        decreases v.len() - i,
    {
        r.push(v[i].duplicate());
        assert(r@ =~= v@.subrange(0, i + 1));
        i = i + 1;
    }
    assert(v@.subrange(0, v.len() as int) =~= v@);
    r
}

impl ChannelConfig {
    /// A copy with the same model.
    pub fn duplicate(&self) -> (r: ChannelConfig)
        ensures
            r@ == self@,
    {
        ChannelConfig {
            channel_id: self.channel_id.clone(),
            ws_url: self.ws_url.clone(),
            admins: copy_users(&self.admins),
            bind_users: copy_users(&self.bind_users),
            agent_id: self.agent_id.clone(),
            role_name: self.role_name.clone(),
            enabled: self.enabled,
        }
    }

    /// The agent id to store for a configured id (see [`normalized_agent_id`]).
    pub fn normalize_agent_id(id: &str) -> (r: String)
        ensures
            r@ == normalized_agent_id(id@),
    {
        if crate::text::is_empty_str(id) {
            let r = owned("0");
            proof { reveal_strlit("0"); }
            r
        } else {
            owned(id)
        }
    }
}

/// A change to one channel's configuration.
#[derive(Debug)]
pub enum ChannelUpdate {
    /// Binds an identity to the channel.
    BindUser(ChannelUser),
    /// Unbinds an identity from the channel.
    UnbindUser(ChannelUser),
    /// Sets the agent and role that answer on the channel.
    SetAgentRole { agent_id: String, role_name: String },
    /// Enables or disables the channel.
    SetEnabled(bool),
}

/// The channel after `u`.
pub open spec fn updated_channel(c: ChannelConfigView, u: ChannelUpdate) -> ChannelConfigView {
    match u {
        ChannelUpdate::BindUser(x) => ChannelConfigView { bind_users: c.bind_users.insert(x@), ..c },
        ChannelUpdate::UnbindUser(x) => ChannelConfigView { bind_users: c.bind_users.remove(x@), ..c },
        ChannelUpdate::SetAgentRole { agent_id, role_name } => ChannelConfigView {
            agent_id: agent_id@,
            role_name: role_name@,
            ..c
        },
        ChannelUpdate::SetEnabled(b) => ChannelConfigView { enabled: b, ..c },
    }
}

impl ChannelConfig {
    /// Applies `u` (see [`updated_channel`]).
    pub fn apply(&mut self, u: ChannelUpdate)
        ensures
            final(self)@ == updated_channel(old(self)@, u),
    {
        match u {
            ChannelUpdate::BindUser(x) => users_insert(&mut self.bind_users, &x),
            ChannelUpdate::UnbindUser(x) => users_remove(&mut self.bind_users, &x),
            ChannelUpdate::SetAgentRole { agent_id, role_name } => {
                self.agent_id = agent_id;
                self.role_name = role_name;
            },
            ChannelUpdate::SetEnabled(b) => {
                self.enabled = b;
            },
        }
    }
}

// ---------- the repository ----------

/// The editable configuration.
pub struct NexusRepo {
    pub channels: Registry<String, ChannelConfig>,
    pub providers: Registry<String, ProviderModelConfig>,
    pub memory_structs: Registry<String, MemoryStructConfig>,
    pub agents: Registry<String, AgentRoleConfig>,
    pub sessions: Registry<SessionKey, SessionConfigMap>,
}

/// Mathematical model of [`NexusRepo`].
pub ghost struct NexusRepoView {
    pub channels: Map<Seq<char>, ChannelConfigView>,
    pub providers: Map<Seq<char>, ProviderModelConfigView>,
    pub memory_structs: Map<Seq<char>, (Seq<char>, Seq<char>)>,
    pub agents: Map<Seq<char>, AgentRoleConfigView>,
    pub sessions: Map<SessionKeyView, SessionConfigMapView>,
}

impl View for NexusRepo {
    type V = NexusRepoView;

    open spec fn view(&self) -> NexusRepoView {
        NexusRepoView {
            channels: self.channels@,
            providers: self.providers@,
            memory_structs: self.memory_structs@,
            agents: self.agents@,
            sessions: self.sessions@,
        }
    }
}

/// The error for a missing channel.
pub open spec fn channel_missing(id: Seq<char>) -> Seq<char> {
    "channel 不存在: "@ + id
}

/// An error carrying `prefix` followed by `detail`.
fn config_not_found(prefix: &str, detail: &str) -> (r: AgentError)
    ensures
        r matches AgentError::ConfigNotFound(m) && m@ == prefix@ + detail@,
{
    let mut m = owned(prefix);
    push_str(&mut m, detail);
    AgentError::ConfigNotFound(m)
}

/// The agent's settings, or no settings when the agent has none.
pub open spec fn agent_or_empty(agents: Map<Seq<char>, AgentRoleConfigView>, agent_id: Seq<char>) -> AgentRoleConfigView {
    if agents.dom().contains(agent_id) {
        agents[agent_id]
    } else {
        AgentRoleConfigView { agent: crate::agent_role::empty_map_view(), roles: Seq::empty() }
    }
}

/// The value of kind `C` in effect for a session, computed from its agent and role.
pub open spec fn resolved<C: SessionConfigField>(r: NexusRepoView, key: SessionKeyView) -> <C::Effective as View>::V {
    C::effective(built::<C>(agent_or_empty(r.agents, key.agent_id), key.role_name))
}

/// The value of kind `C` that a session uses: the cached value, else the resolved one.
pub open spec fn session_value<C: SessionConfigField>(r: NexusRepoView, key: SessionKeyView) -> <C::Effective as View>::V {
    if r.sessions.dom().contains(key) && C::session_slot(r.sessions[key]) is Some {
        C::session_slot(r.sessions[key])->0
    } else {
        resolved::<C>(r, key)
    }
}

/// The repository with `v` cached as the session's value of kind `C`.
pub open spec fn with_session_value<C: SessionConfigField>(r: NexusRepoView, key: SessionKeyView, v: <C::Effective as View>::V) -> NexusRepoView {
    let m = if r.sessions.dom().contains(key) { r.sessions[key] } else { empty_session_view() };
    NexusRepoView { sessions: r.sessions.insert(key, C::with_session_slot(m, v)), ..r }
}

impl NexusRepo {
    /// Nothing configured.
    pub fn new() -> (r: NexusRepo)
        ensures
            r@.channels == Map::<Seq<char>, ChannelConfigView>::empty(),
            r@.providers == Map::<Seq<char>, ProviderModelConfigView>::empty(),
            r@.memory_structs == Map::<Seq<char>, (Seq<char>, Seq<char>)>::empty(),
            r@.agents == Map::<Seq<char>, AgentRoleConfigView>::empty(),
            r@.sessions == Map::<SessionKeyView, SessionConfigMapView>::empty(),
    {
        NexusRepo {
            channels: Registry::new(),
            providers: Registry::new(),
            memory_structs: Registry::new(),
            agents: Registry::new(),
            sessions: Registry::new(),
        }
    }

    // ----- channels -----

    /// The configuration of channel `channel_id`.
    pub fn channel(&self, channel_id: &str) -> (r: Option<ChannelConfig>)
        ensures
            match r {
                Some(c) => self@.channels.dom().contains(channel_id@) && c@ == self@.channels[channel_id@],
                None => !self@.channels.dom().contains(channel_id@),
            },
    {
        let key = owned(channel_id);
        match self.channels.get(&key) {
            Some(c) => Some(c.duplicate()),
            None => None,
        }
    }

    /// Adds (or replaces) a channel under its id.
    pub fn add_channel(&mut self, ch: ChannelConfig)
        ensures
            final(self)@ == (NexusRepoView { channels: old(self)@.channels.insert(ch.channel_id@, ch@), ..old(self)@ }),
    {
        let key = ch.channel_id.clone();
        self.channels.insert(key, ch);
    }

    /// Removes a channel.
    pub fn remove_channel(&mut self, channel_id: &str)
        ensures
            final(self)@ == (NexusRepoView { channels: old(self)@.channels.remove(channel_id@), ..old(self)@ }),
    {
        let key = owned(channel_id);
        self.channels.remove(&key);
    }

    /// Applies `update` to channel `channel_id`; a missing channel is an error and changes nothing.
    pub fn update_channel(&mut self, channel_id: &str, update: ChannelUpdate) -> (r: Result<(), AgentError>)
        ensures
            old(self)@.channels.dom().contains(channel_id@) ==> r is Ok && final(self)@ == (NexusRepoView {
                channels: old(self)@.channels.insert(channel_id@, updated_channel(old(self)@.channels[channel_id@], update)),
                ..old(self)@
            }),
            !old(self)@.channels.dom().contains(channel_id@) ==> final(self)@ == old(self)@
                && (r matches Err(AgentError::ConfigNotFound(m)) && m@ == channel_missing(channel_id@)),
    {
        match self.channel(channel_id) {
            Some(ch) => {
                let mut ch = ch;
                ch.apply(update);
                let key = owned(channel_id);
                self.channels.insert(key, ch);
                Ok(())
            },
            None => Err(config_not_found("channel 不存在: ", channel_id)),
        }
    }

    /// Grants `admin` the administrator right on channel `channel_id`.
    pub fn add_admin(&mut self, channel_id: &str, admin: &ChannelUser) -> (r: Result<(), AgentError>)
        ensures
            old(self)@.channels.dom().contains(channel_id@) ==> r is Ok && final(self)@ == (NexusRepoView {
                channels: old(self)@.channels.insert(channel_id@, ChannelConfigView {
                    admins: old(self)@.channels[channel_id@].admins.insert(admin@),
                    ..old(self)@.channels[channel_id@]
                }),
                ..old(self)@
            }),
            !old(self)@.channels.dom().contains(channel_id@) ==> final(self)@ == old(self)@
                && (r matches Err(AgentError::ConfigNotFound(m)) && m@ == channel_missing(channel_id@)),
    {
        match self.channel(channel_id) {
            Some(ch) => {
                let mut ch = ch;
                users_insert(&mut ch.admins, admin);
                let key = owned(channel_id);
                self.channels.insert(key, ch);
                Ok(())
            },
            None => Err(config_not_found("channel 不存在: ", channel_id)),
        }
    }

    /// Withdraws the administrator right of the identity (`messenger_id`, `user_id`) on
    /// channel `channel_id`.
    pub fn remove_admin(&mut self, channel_id: &str, messenger_id: &str, user_id: &str) -> (r: Result<(), AgentError>)
        ensures
            old(self)@.channels.dom().contains(channel_id@) ==> r is Ok && final(self)@ == (NexusRepoView {
                channels: old(self)@.channels.insert(channel_id@, ChannelConfigView {
                    admins: old(self)@.channels[channel_id@].admins.remove((messenger_id@, user_id@)),
                    ..old(self)@.channels[channel_id@]
                }),
                ..old(self)@
            }),
            !old(self)@.channels.dom().contains(channel_id@) ==> final(self)@ == old(self)@
                && (r matches Err(AgentError::ConfigNotFound(m)) && m@ == channel_missing(channel_id@)),
    {
        match self.channel(channel_id) {
            Some(ch) => {
                let mut ch = ch;
                let target = ChannelUser { messenger_id: owned(messenger_id), user_id: owned(user_id) };
                users_remove(&mut ch.admins, &target);
                let key = owned(channel_id);
                self.channels.insert(key, ch);
                Ok(())
            },
            None => Err(config_not_found("channel 不存在: ", channel_id)),
        }
    }

    /// The administrators of all channels together.
    pub fn admin_users(&self) -> (r: Vec<ChannelUser>)
        ensures
            forall|u: (Seq<char>, Seq<char>)| #[trigger] user_set(r@).contains(u) <==> exists|id: Seq<char>|
                self@.channels.dom().contains(id) && #[trigger] self@.channels[id].admins.contains(u),
    {
        let mut r: Vec<ChannelUser> = Vec::new();
        let n = self.channels.len();
        let mut i: usize = 0;
        let ghost mut seen: Set<Seq<char>> = Set::empty();
        while i < n
            invariant
                i <= n,
                n == self.channels.pairs().len(),
                forall|u: (Seq<char>, Seq<char>)| #[trigger] user_set(r@).contains(u) <==> exists|j: int|
                    0 <= j < i && #[trigger] self.channels.pairs()[j].1.admins.contains(u),
                forall|j: int| 0 <= j < i ==> self@.channels.dom().contains(#[trigger] self.channels.pairs()[j].0)
                    && self@.channels[self.channels.pairs()[j].0] == self.channels.pairs()[j].1,
            decreases n - i,
        {
            let (_, ch) = self.channels.entry_at(i);
            let ghost before = r@;
            let mut k: usize = 0;
            while k < ch.admins.len()
                invariant
                    k <= ch.admins.len(),
                    user_set(r@) == user_set(before).union(user_set(ch.admins@.subrange(0, k as int))),
                decreases ch.admins.len() - k,
            {
                let ghost rb = r@;
                r.push(ch.admins[k].duplicate());
                assert(r@.map_values(|x: ChannelUser| x@) =~= rb.map_values(|x: ChannelUser| x@).push(ch.admins@[k as int]@));
                proof { rb.map_values(|x: ChannelUser| x@).lemma_push_to_set_commute(ch.admins@[k as int]@); }
                let ghost pre = ch.admins@.subrange(0, k as int);
                let ghost post = ch.admins@.subrange(0, k + 1);
                assert(post =~= pre.push(ch.admins@[k as int]));
                assert(post.map_values(|x: ChannelUser| x@) =~= pre.map_values(|x: ChannelUser| x@).push(ch.admins@[k as int]@));
                proof { pre.map_values(|x: ChannelUser| x@).lemma_push_to_set_commute(ch.admins@[k as int]@); }
                assert(user_set(r@) =~= user_set(before).union(user_set(post)));
                k = k + 1;
            }
            assert(ch.admins@.subrange(0, ch.admins.len() as int) =~= ch.admins@);
            assert forall|u: (Seq<char>, Seq<char>)| #[trigger] user_set(r@).contains(u) <==> exists|j: int|
                0 <= j < i + 1 && #[trigger] self.channels.pairs()[j].1.admins.contains(u) by {
                if user_set(before).contains(u) {
                    let j = choose|j: int| 0 <= j < i && #[trigger] self.channels.pairs()[j].1.admins.contains(u);
                    assert(0 <= j < i + 1 && self.channels.pairs()[j].1.admins.contains(u));
                }
                if user_set(ch.admins@).contains(u) {
                    assert(self.channels.pairs()[i as int].1.admins.contains(u));
                }
                if exists|j: int| 0 <= j < i + 1 && #[trigger] self.channels.pairs()[j].1.admins.contains(u) {
                    let j = choose|j: int| 0 <= j < i + 1 && #[trigger] self.channels.pairs()[j].1.admins.contains(u);
                    if j < i {
                        assert(user_set(before).contains(u));
                    } else {
                        assert(user_set(ch.admins@).contains(u));
                    }
                }
            }
            i = i + 1;
        }
        proof {
            assert forall|u: (Seq<char>, Seq<char>)| #[trigger] user_set(r@).contains(u) <==> exists|id: Seq<char>|
                self@.channels.dom().contains(id) && #[trigger] self@.channels[id].admins.contains(u) by {
                if user_set(r@).contains(u) {
                    let j = choose|j: int| 0 <= j < n && #[trigger] self.channels.pairs()[j].1.admins.contains(u);
                    let id = self.channels.pairs()[j].0;
                    assert(self@.channels.dom().contains(id) && self@.channels[id].admins.contains(u));
                }
                if exists|id: Seq<char>| self@.channels.dom().contains(id) && #[trigger] self@.channels[id].admins.contains(u) {
                    let id = choose|id: Seq<char>| self@.channels.dom().contains(id) && #[trigger] self@.channels[id].admins.contains(u);
                    let j = choose|j: int| 0 <= j < n && self.channels.pairs()[j].0 == id;
                    assert(self.channels.pairs()[j].1.admins.contains(u));
                }
            }
        }
        r
    }

    // ----- providers -----

    /// The parameters in effect for `model` of `provider`.
    pub fn provider_model_config(&self, provider: &str, model: &str) -> (r: Option<EffectiveModelConfig>)
        ensures
            match r {
                Some(e) => self@.providers.dom().contains(provider@) && e@ == effective_model(self@.providers[provider@], model@),
                None => !self@.providers.dom().contains(provider@),
            },
    {
        let key = owned(provider);
        match self.providers.get(&key) {
            Some(p) => Some(p.get_effective_config(model)),
            None => None,
        }
    }

    /// How to reach provider `name`.
    pub fn provider_config(&self, name: &str) -> (r: Option<ProviderConfig>)
        ensures
            match r {
                Some(c) => self@.providers.dom().contains(name@) && c@ == self@.providers[name@].provider_config,
                None => !self@.providers.dom().contains(name@),
            },
    {
        let key = owned(name);
        match self.providers.get(&key) {
            Some(p) => Some(p.provider_config.duplicate()),
            None => None,
        }
    }

    /// Adds provider `name`; a name already in use is an error and changes nothing.
    pub fn add_provider(&mut self, name: &str, cfg: ProviderModelConfig) -> (r: Result<(), AgentError>)
        ensures
            !old(self)@.providers.dom().contains(name@) ==> r is Ok && final(self)@ == (NexusRepoView {
                providers: old(self)@.providers.insert(name@, cfg@),
                ..old(self)@
            }),
            old(self)@.providers.dom().contains(name@) ==> final(self)@ == old(self)@
                && (r matches Err(AgentError::ConfigNotFound(m)) && m@ == "provider 已存在: "@ + name@),
    {
        let key = owned(name);
        if self.providers.contains_key(&key) {
            return Err(config_not_found("provider 已存在: ", name));
        }
        self.providers.insert(key, cfg);
        Ok(())
    }

    /// Removes provider `name`; a missing provider is an error and changes nothing.
    pub fn remove_provider(&mut self, name: &str) -> (r: Result<(), AgentError>)
        ensures
            old(self)@.providers.dom().contains(name@) ==> r is Ok && final(self)@ == (NexusRepoView {
                providers: old(self)@.providers.remove(name@),
                ..old(self)@
            }),
            !old(self)@.providers.dom().contains(name@) ==> final(self)@ == old(self)@
                && (r matches Err(AgentError::ConfigNotFound(m)) && m@ == "provider 不存在: "@ + name@),
    {
        let key = owned(name);
        if !self.providers.contains_key(&key) {
            return Err(config_not_found("provider 不存在: ", name));
        }
        self.providers.remove(&key);
        Ok(())
    }

    // ----- agents and sessions -----

    /// The settings of `agent_id` (none when unconfigured).
    pub fn agent_config(&self, agent_id: &str) -> (r: AgentRoleConfig)
        ensures
            r@ == agent_or_empty(self@.agents, agent_id@),
    {
        let key = owned(agent_id);
        match self.agents.get(&key) {
            Some(a) => a.duplicate(),
            None => {
                let r = AgentRoleConfig::new();
                assert(r@.roles =~= Seq::<(Seq<char>, crate::agent_role::AgentRoleConfigMapView)>::empty());
                r
            },
        }
    }

    /// Stores `config` of kind `C` for (`agent_id`, `role_name`): the agent-wide layer when the
    /// role name is empty. The agent's entry is created when missing.
    pub fn set_agent_role_config<C: SessionConfigField>(&mut self, agent_id: &str, role_name: &str, config: C)
        ensures
            final(self)@ == (NexusRepoView {
                agents: old(self)@.agents.insert(agent_id@, after_set::<C>(agent_or_empty(old(self)@.agents, agent_id@), role_name@, config@)),
                ..old(self)@
            }),
    {
        let mut a = self.agent_config(agent_id);
        a.set(role_name, config);
        let key = owned(agent_id);
        self.agents.insert(key, a);
    }

    /// Sets (or clears) where the replies of (`agent_id`, `role_name`) go.
    pub fn set_out_channel(&mut self, agent_id: &str, role_name: &str, out: Option<OutChannel>)
        ensures
            final(self)@ == (NexusRepoView {
                agents: old(self)@.agents.insert(agent_id@, after_set::<OutChannelConfig>(
                    agent_or_empty(old(self)@.agents, agent_id@),
                    role_name@,
                    OutChannelConfig { out_channel: out },
                )),
                ..old(self)@
            }),
    {
        self.set_agent_role_config(agent_id, role_name, OutChannelConfig { out_channel: out });
    }

    /// The value of kind `C` that session `key` uses; a value resolved from the agent and
    /// role is cached for the session.
    pub fn session_config<C: SessionConfigField>(&mut self, key: &SessionKey) -> (r: C::Effective)
        ensures
            r@ == session_value::<C>(old(self)@, key@),
            final(self)@ == with_session_value::<C>(old(self)@, key@, r@),
    {
        let cached = match self.sessions.get(key) {
            Some(m) => C::get_session_slot(m),
            None => None,
        };
        match cached {
            Some(e) => {
                proof {
                    C::lemma_put_same(self@.sessions[key@], e@);
                    assert(self@.sessions.insert(key@, self@.sessions[key@]) =~= self@.sessions);
                }
                e
            },
            None => {
                let a = self.agent_config(key.agent_id.as_str());
                let c: C = a.build(key.role_name.as_str());
                let e = c.get_effective_config();
                let out = C::copy_effective(&e);
                let mut map = match self.sessions.get(key) {
                    Some(m) => m.duplicate(),
                    None => SessionConfigMap::new(),
                };
                C::put_session_slot(&mut map, e);
                self.sessions.insert(key.duplicate(), map);
                out
            },
        }
    }
}


impl NexusRepo {
    /// Merges `config` over the value of kind `C` that session `key` uses and caches the result.
    pub fn set_session_config<C: SessionConfigField>(&mut self, key: &SessionKey, config: &C)
        ensures
            final(self)@ == with_session_value::<C>(old(self)@, key@, C::merged_by(session_value::<C>(old(self)@, key@), config@)),
    {
        let mut map = match self.sessions.get(key) {
            Some(m) => m.duplicate(),
            None => SessionConfigMap::new(),
        };
        proof {
            C::lemma_empty_slot();
        }
        let mut e = match C::get_session_slot(&map) {
            Some(e) => e,
            None => {
                let a = self.agent_config(key.agent_id.as_str());
                let c: C = a.build(key.role_name.as_str());
                c.get_effective_config()
            },
        };
        C::merge_by(&mut e, config);
        C::put_session_slot(&mut map, e);
        self.sessions.insert(key.duplicate(), map);
    }
}

} // verus!
