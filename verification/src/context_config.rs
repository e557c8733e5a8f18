//! Context settings with agent defaults and per-role overrides, merged over global defaults.
use vstd::prelude::*;
use crate::configs::{DEFAULT_CHANNEL_BATCH_INTERVAL_SECS, DEFAULT_COMPRESS_PROMPT, DEFAULT_MEMORY_COUNT, DEFAULT_MEMORY_TIME_SECS};
use crate::message::copy_strings;
use crate::registry::Registry;
use crate::text::{owned, strs_view};

verus! {

/// Context settings of one role; each set field overrides the agent's default.
#[derive(Debug, Clone)]
pub struct RoleContextConfig {
    pub channel_batch_interval_secs: Option<u64>,
    pub memory_time_secs: Option<u64>,
    pub memory_count: Option<usize>,
    pub compress_prompt: Option<String>,
    pub stations: Option<Vec<String>>,
}

/// Context settings of one agent: its defaults and its roles' overrides.
pub struct AgentContextConfig {
    pub default_channel_batch_interval_secs: u64,
    pub default_memory_time_secs: u64,
    pub default_memory_count: usize,
    pub default_compress_prompt: String,
    pub default_stations: Vec<String>,
    pub roles: Registry<String, RoleContextConfig>,
}

impl View for RoleContextConfig {
    type V = RoleContextConfig;

    open spec fn view(&self) -> RoleContextConfig {
        *self
    }
}

/// Context settings in effect.
#[derive(Debug, Clone)]
pub struct EffectiveContextConfig {
    pub channel_batch_interval_secs: u64,
    pub memory_time_secs: u64,
    pub memory_count: usize,
    pub compress_prompt: String,
    pub stations: Vec<String>,
}

/// Mathematical model of [`EffectiveContextConfig`] (the stations as a set).
pub ghost struct EffectiveContextConfigView {
    pub channel_batch_interval_secs: u64,
    pub memory_time_secs: u64,
    pub memory_count: usize,
    pub compress_prompt: Seq<char>,
    pub stations: Set<Seq<char>>,
}

impl View for EffectiveContextConfig {
    type V = EffectiveContextConfigView;

    open spec fn view(&self) -> EffectiveContextConfigView {
        EffectiveContextConfigView {
            channel_batch_interval_secs: self.channel_batch_interval_secs,
            memory_time_secs: self.memory_time_secs,
            memory_count: self.memory_count,
            compress_prompt: self.compress_prompt@,
            stations: strs_view(self.stations@).to_set(),
        }
    }
}

/// The settings in effect: the global defaults without an agent; otherwise the agent's
/// defaults, each overridden by the role's value when the role sets it (the role's stations
/// replace the agent's as a whole).
pub open spec fn merged_context(agent: Option<&AgentContextConfig>, role: Option<&RoleContextConfig>) -> EffectiveContextConfigView {
    match agent {
        None => EffectiveContextConfigView {
            channel_batch_interval_secs: DEFAULT_CHANNEL_BATCH_INTERVAL_SECS,
            memory_time_secs: DEFAULT_MEMORY_TIME_SECS,
            memory_count: DEFAULT_MEMORY_COUNT,
            compress_prompt: DEFAULT_COMPRESS_PROMPT@,
            stations: Set::empty(),
        },
        Some(a) => EffectiveContextConfigView {
            channel_batch_interval_secs: match role {
                Some(r) if r.channel_batch_interval_secs is Some => r.channel_batch_interval_secs->0,
                _ => a.default_channel_batch_interval_secs,
            },
            memory_time_secs: match role {
                Some(r) if r.memory_time_secs is Some => r.memory_time_secs->0,
                _ => a.default_memory_time_secs,
            },
            memory_count: match role {
                Some(r) if r.memory_count is Some => r.memory_count->0,
                _ => a.default_memory_count,
            },
            compress_prompt: match role {
                Some(r) if r.compress_prompt is Some => r.compress_prompt->0@,
                _ => a.default_compress_prompt@,
            },
            stations: match role {
                Some(r) if r.stations is Some => strs_view(r.stations->0@).to_set(),
                _ => strs_view(a.default_stations@).to_set(),
            },
        },
    }
}

/// Merges the three layers (see [`merged_context`]).
pub fn merge_context_config(agent: Option<&AgentContextConfig>, role: Option<&RoleContextConfig>) -> (r: EffectiveContextConfig)
    ensures
        r@ == merged_context(agent, role),
{
    match agent {
        None => {
            let r = EffectiveContextConfig {
                channel_batch_interval_secs: DEFAULT_CHANNEL_BATCH_INTERVAL_SECS,
                memory_time_secs: DEFAULT_MEMORY_TIME_SECS,
                memory_count: DEFAULT_MEMORY_COUNT,
                compress_prompt: owned(DEFAULT_COMPRESS_PROMPT),
                stations: Vec::new(),
            };
            assert(strs_view(r.stations@).to_set() =~= Set::<Seq<char>>::empty());
            r
        },
        Some(a) => {
            let mut channel_batch_interval_secs = a.default_channel_batch_interval_secs;
            let mut memory_time_secs = a.default_memory_time_secs;
            let mut memory_count = a.default_memory_count;
            let mut compress_prompt = a.default_compress_prompt.clone();
            let mut stations = copy_strings(&a.default_stations);
            if let Some(r) = role {
                if let Some(v) = r.channel_batch_interval_secs {
                    channel_batch_interval_secs = v;
                }
                if let Some(v) = r.memory_time_secs {
                    memory_time_secs = v;
                }
                if let Some(v) = r.memory_count {
                    memory_count = v;
                }
                if let Some(v) = &r.compress_prompt {
                    compress_prompt = v.clone();
                }
                if let Some(v) = &r.stations {
                    stations = copy_strings(v);
                }
            }
            EffectiveContextConfig { channel_batch_interval_secs, memory_time_secs, memory_count, compress_prompt, stations }
        },
    }
}

} // verus!
