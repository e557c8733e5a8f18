//! Changing which agent, role and mode a channel runs, and which model a session uses.
use vstd::prelude::*;
use crate::channel::{channel_or_new, ChannelManager, ChannelView};
use crate::agent_role::{AgentRoleConfigMapView, AgentRoleConfigView};
use crate::configs::{llm_unset, LLMConfig};
use crate::error::AgentError;
use crate::nexus_repo::{agent_or_empty, channel_missing, ChannelConfigView, ChannelUpdate, NexusRepo, NexusRepoView};
use crate::text::{owned, push_str};
use crate::types::{Mode, ModeView, SessionKey, SessionKeyView};

verus! {

/// The configuration after channel `id` is set to run agent `a` in role `n`.
pub open spec fn keyed_repo(r: NexusRepoView, id: Seq<char>, a: Seq<char>, n: Seq<char>) -> NexusRepoView {
    NexusRepoView {
        channels: r.channels.insert(id, ChannelConfigView { agent_id: a, role_name: n, ..r.channels[id] }),
        ..r
    }
}

/// The channel states after channel `id` is set to mode `m` (none: left as they are).
pub open spec fn keyed_channels(c: Map<Seq<char>, ChannelView>, id: Seq<char>, m: Option<ModeView>) -> Map<Seq<char>, ChannelView> {
    match m {
        Some(x) => c.insert(id, ChannelView { mode: x, ..channel_or_new(c, id) }),
        None => c,
    }
}

/// The value given, or the current one when none is given.
pub open spec fn given_or(v: Option<Seq<char>>, current: Seq<char>) -> Seq<char> {
    match v {
        Some(x) => x,
        None => current,
    }
}

/// The text of an optional string.
pub open spec fn opt_text(v: Option<String>) -> Option<Seq<char>> {
    match v {
        Some(x) => Some(x@),
        None => None,
    }
}

/// The model of an optional mode.
pub open spec fn opt_mode(v: Option<Mode>) -> Option<ModeView> {
    match v {
        Some(x) => Some(x@),
        None => None,
    }
}

/// Sets the agent, role and mode channel `channel_id` runs; a value left out keeps the
/// current one. An unknown channel is an error and changes nothing; otherwise the channel's
/// agent and role are stored, its mode is set when one is given, and the session the
/// channel now leads to is returned.
pub fn apply_channel_key(
    repo: &mut NexusRepo,
    channels: &mut ChannelManager,
    channel_id: &str,
    agent_id: Option<String>,
    role_name: Option<String>,
    mode: Option<Mode>,
) -> (r: Result<SessionKey, AgentError>)
    ensures
        !old(repo)@.channels.dom().contains(channel_id@) ==> final(repo)@ == old(repo)@ && final(channels)@ == old(channels)@
            && (r matches Err(AgentError::ConfigNotFound(m)) && m@ == channel_missing(channel_id@)),
        old(repo)@.channels.dom().contains(channel_id@) ==> {
            let c = old(repo)@.channels[channel_id@];
            let a = given_or(opt_text(agent_id), c.agent_id);
            let n = given_or(opt_text(role_name), c.role_name);
            let md = match mode { Some(x) => x@, None => channel_or_new(old(channels)@, channel_id@).mode };
            &&& final(repo)@ == keyed_repo(old(repo)@, channel_id@, a, n)
            &&& final(channels)@ == keyed_channels(old(channels)@, channel_id@, opt_mode(mode))
            &&& (r matches Ok(k) && k@ == (SessionKeyView { agent_id: a, role_name: n, mode: md }))
        },
{
    let ch = match repo.channel(channel_id) {
        Some(c) => c,
        None => {
            let mut m = owned("channel 不存在: ");
            push_str(&mut m, channel_id);
            return Err(AgentError::ConfigNotFound(m));
        },
    };
    let a = match agent_id { Some(x) => x, None => ch.agent_id };
    let n = match role_name { Some(x) => x, None => ch.role_name };
    let ka = a.clone();
    let kn = n.clone();
    let res = repo.update_channel(channel_id, ChannelUpdate::SetAgentRole { agent_id: a, role_name: n });
    match res {
        Ok(()) => {},
        Err(e) => return Err(e),
    }
    let md = match mode {
        Some(x) => {
            let y = x.duplicate();
            channels.set_mode(channel_id, x);
            y
        },
        None => channels.mode(channel_id),
    };
    Ok(SessionKey { agent_id: ka, role_name: kn, mode: md })
}

/// Accepts model `model` of provider `provider` only when the provider lists it.
pub fn model_listed(models: &Vec<String>, provider: &str, model: &str) -> (r: Result<(), AgentError>)
    ensures
        models@.map_values(|m: String| m@).contains(model@) ==> r is Ok,
        !models@.map_values(|m: String| m@).contains(model@) ==> (r matches Err(AgentError::ModelProviderNotSupported(m))
            && m@ == "模型 "@ + model@ + " 不在 "@ + provider@ + " 的 API 模型列表"@),
{
    if crate::configs::contains_name(models, model) {
        Ok(())
    } else {
        let mut m = owned("模型 ");
        push_str(&mut m, model);
        push_str(&mut m, " 不在 ");
        push_str(&mut m, provider);
        push_str(&mut m, " 的 API 模型列表");
        Err(AgentError::ModelProviderNotSupported(m))
    }
}

/// The model setting a session gets from `/model`: the provider and model, nothing else set.
pub fn session_model_config(provider: &str, model: &str) -> (r: LLMConfig)
    ensures
        r.provider matches Some(p) && p@ == provider@,
        r.model matches Some(m) && m@ == model@,
        r.max_tokens is None && !r.has_max_tokens,
        r.temperature is None && !r.has_temperature,
        r.thinking is None && !r.has_thinking,
        r.reasoning_effort is None && !r.has_reasoning_effort,
{
    LLMConfig {
        provider: Some(owned(provider)),
        model: Some(owned(model)),
        max_tokens: None,
        has_max_tokens: false,
        temperature: None,
        has_temperature: false,
        thinking: None,
        has_thinking: false,
        reasoning_effort: None,
        has_reasoning_effort: false,
    }
}

/// Whether `after` is `before` with `provider`/`model` made the default model of agent
/// `agent_id`: the agent-wide model setting names them and keeps its other settings (none
/// when it had none); nothing else changes.
pub open spec fn default_model_set(before: NexusRepoView, after: NexusRepoView, agent_id: Seq<char>, provider: Seq<char>, model: Seq<char>) -> bool {
    let a = agent_or_empty(before.agents, agent_id);
    let base = match a.agent.llm { Some(l) => l, None => llm_unset() };
    let na = after.agents[agent_id];
    &&& after == (NexusRepoView { agents: after.agents, ..before })
    &&& after.agents == before.agents.insert(agent_id, na)
    &&& na == (AgentRoleConfigView { agent: AgentRoleConfigMapView { llm: na.agent.llm, ..a.agent }, ..a })
    &&& na.agent.llm matches Some(l)
        && (l.provider matches Some(x) && x@ == provider)
        && (l.model matches Some(y) && y@ == model)
        && l == (LLMConfig { provider: l.provider, model: l.model, ..base })
}

/// Makes `provider`/`model` the default model of agent `agent_id` (`/model .. true`): its
/// agent-wide model setting names them, so each of its sessions that has no model of its own
/// uses them (see [`default_model_set`]).
pub fn set_default_model(repo: &mut NexusRepo, agent_id: &str, provider: &str, model: &str)
    ensures
        default_model_set(old(repo)@, final(repo)@, agent_id@, provider@, model@),
{
    let cfg = session_model_config(provider, model);
    repo.set_agent_role_config(agent_id, "", cfg);
    proof {
        reveal_strlit("");
    }
}

} // verus!
