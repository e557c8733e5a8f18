use kissbot_agent::agent_role::AgentRoleConfig;
use kissbot_agent::configs::{
    ChannelBatchConfig, CompressConfig, LLMConfig, MemoryRecoverConfig, OutChannel, OutChannelConfig, ToolkitSetConfig,
    DEFAULT_CHANNEL_BATCH_INTERVAL_SECS, DEFAULT_COMPRESS_PROMPT, DEFAULT_COMPRESS_THRESHOLD_BITS, DEFAULT_MEMORY_COUNT,
    DEFAULT_MEMORY_TIME_SECS,
};
use kissbot_agent::context_config::{merge_context_config, AgentContextConfig, RoleContextConfig};
use kissbot_agent::effective::{EffectiveCompressConfig, EffectiveLLMConfig};
use kissbot_agent::error::AgentError;
use kissbot_agent::nexus_repo::{
    ChannelConfig, ChannelUpdate, ModelConfig, NexusRepo, ProviderConfig, ProviderModelConfig, DEFAULT_RETRY_COUNT,
    DEFAULT_TIMEOUT_SECS,
};
use kissbot_agent::registry::Registry;
use kissbot_agent::types::{ChannelUser, Mode, SessionKey};

fn sample_provider() -> ProviderModelConfig {
    ProviderModelConfig {
        provider_config: ProviderConfig {
            provider_type: "openai".into(),
            base_url: "https://api.deepseek.com".into(),
            api_key: "sk-test".into(),
        },
        default_model_config: ModelConfig { max_tokens_usage: 128000, timeout_secs: Some(60), retry_count: Some(3) },
        model_configs: Registry::new(),
    }
}

fn with_model(mut provider: ProviderModelConfig, model: &str, config: ModelConfig) -> ProviderModelConfig {
    provider.model_configs.insert(model.to_string(), config);
    provider
}

fn llm_config(provider: &str, model: &str) -> LLMConfig {
    LLMConfig { provider: Some(provider.into()), model: Some(model.into()), ..LLMConfig::default() }
}

fn session_key(agent_id: &str, role_name: &str) -> SessionKey {
    SessionKey { agent_id: agent_id.into(), role_name: role_name.into(), mode: Mode::Role }
}

fn sample_channel(id: &str) -> ChannelConfig {
    ChannelConfig {
        channel_id: id.into(),
        ws_url: "ws://127.0.0.1:8201".into(),
        admins: vec![],
        bind_users: vec![ChannelUser { messenger_id: "web".into(), user_id: "u1".into() }],
        agent_id: "0".into(),
        role_name: "".into(),
        enabled: true,
    }
}

#[test]
fn get_effective_config_missing_model_uses_provider_default() {
    let eff = sample_provider().get_effective_config("unconfigured-model");
    assert_eq!(eff.max_tokens_usage, 128000, "未配置参数取 provider 默认值");
    assert_eq!(eff.timeout_secs, 60);
    assert_eq!(eff.retry_count, 3);
    assert_eq!(eff.provider_config.provider_type.as_str(), "openai");
}

#[test]
fn merge_model_provider_partial_defaults_fall_back_to_globals() {
    let mut provider = sample_provider();
    provider.default_model_config = ModelConfig { max_tokens_usage: 128000, timeout_secs: None, retry_count: None };
    let provider = with_model(provider, "deepseek-4-flash", ModelConfig {
        max_tokens_usage: 128000,
        timeout_secs: Some(30),
        retry_count: None,
    });
    let eff = provider.get_effective_config("deepseek-4-flash");
    assert_eq!(eff.max_tokens_usage, 128000, "provider 默认值生效");
    assert_eq!(eff.timeout_secs, 30, "model 覆盖 provider");
    assert_eq!(eff.retry_count, DEFAULT_RETRY_COUNT, "两级都未配回落全局常量");
}

#[test]
fn merge_model_provider_all_default_and_model_overrides() {
    let mut provider = sample_provider();
    provider.default_model_config = ModelConfig::default();
    let provider = with_model(provider, "deepseek-4-flash", ModelConfig {
        max_tokens_usage: 262144,
        timeout_secs: None,
        retry_count: None,
    });
    let eff = provider.get_effective_config("deepseek-4-flash");
    assert_eq!(eff.max_tokens_usage, 262144, "model 覆盖生效");
    assert_eq!(eff.timeout_secs, DEFAULT_TIMEOUT_SECS, "provider 全缺省回落全局常量");
    assert_eq!(eff.retry_count, DEFAULT_RETRY_COUNT);
}

#[test]
fn config_manager_nexus_repo_default_empty() {
    let repo = NexusRepo::new();
    assert_eq!(repo.channels.len(), 0);
    assert_eq!(repo.providers.len(), 0);
    assert_eq!(repo.memory_structs.len(), 0);
    assert_eq!(repo.agents.len(), 0, "agents 初始为空 map");
    assert_eq!(repo.sessions.len(), 0, "sessions 初始为空 map");
}

#[test]
fn agent_role_config_build_returns_defaults_when_unconfigured() {
    let agent = AgentRoleConfig::new();
    let llm: LLMConfig = agent.build("");
    assert!(llm.provider.is_none() && llm.model.is_none(), "未配置 provider/model");
    assert!(!llm.has_max_tokens && !llm.has_temperature && !llm.has_thinking && !llm.has_reasoning_effort);
}

#[test]
fn role_config_overrides_agent_config() {
    let mut agent = AgentRoleConfig::new();
    let mut agent_llm = llm_config("deepseek", "deepseek-chat");
    agent_llm.set_max_tokens(Some(1024));
    agent.set::<LLMConfig>("", agent_llm);
    let mut role_llm = LLMConfig::default();
    role_llm.model = Some("deepseek-reasoner".into());
    agent.set::<LLMConfig>("r1", role_llm);

    let llm: LLMConfig = agent.build("r1");
    assert_eq!(llm.provider.as_deref(), Some("deepseek"), "provider 继承 agent");
    assert_eq!(llm.model.as_deref(), Some("deepseek-reasoner"), "model 被 role 覆盖");
    assert_eq!(llm.max_tokens, Some(1024), "max_tokens 继承 agent");
    assert!(llm.has_max_tokens, "继承后 has_* 保留");

    let other: LLMConfig = agent.build("r2");
    assert_eq!(other.model.as_deref(), Some("deepseek-chat"), "未配置 role 继承 agent");
}

#[test]
fn has_flag_distinguishes_unset_from_explicit_none() {
    let mut agent = AgentRoleConfig::new();
    let mut agent_llm = LLMConfig::default();
    agent_llm.set_temperature(Some(0.7f32.to_bits()));
    agent.set::<LLMConfig>("", agent_llm);

    let mut role_clear = LLMConfig::default();
    role_clear.set_temperature(None);
    agent.set::<LLMConfig>("r1", role_clear);
    let llm: LLMConfig = agent.build("r1");
    assert!(llm.has_temperature, "显式 set（取值可为 None）");
    assert_eq!(llm.temperature, None, "显式置空覆盖 agent 取值");

    let mut role_unset = LLMConfig::default();
    role_unset.unset_temperature();
    agent.set::<LLMConfig>("r2", role_unset);
    let llm: LLMConfig = agent.build("r2");
    assert_eq!(llm.temperature, Some(0.7f32.to_bits()), "unset 视为未配置 → 回落继承 agent");
}

#[test]
fn withdrawn_llm_fields_fall_back_to_the_agent() {
    let mut agent = AgentRoleConfig::new();
    let mut agent_llm = LLMConfig::default();
    agent_llm.set_max_tokens(Some(4096));
    agent_llm.set_thinking(Some("enabled".into()));
    agent_llm.set_reasoning_effort(Some("high".into()));
    agent.set::<LLMConfig>("", agent_llm);

    let mut role = LLMConfig::default();
    role.set_max_tokens(Some(10));
    role.set_thinking(None);
    role.set_reasoning_effort(Some("low".into()));
    role.unset_max_tokens();
    role.unset_thinking();
    role.unset_reasoning_effort();
    assert!(!role.has_max_tokens && !role.has_thinking && !role.has_reasoning_effort);
    assert!(role.max_tokens.is_none() && role.thinking.is_none() && role.reasoning_effort.is_none());
    agent.set::<LLMConfig>("r1", role);
    let llm: LLMConfig = agent.build("r1");
    assert_eq!(llm.max_tokens, Some(4096));
    assert_eq!(llm.thinking.as_deref(), Some("enabled"));
    assert_eq!(llm.reasoning_effort.as_deref(), Some("high"));
}

#[test]
fn toolkit_set_config_merges_as_union() {
    let mut agent = AgentRoleConfig::new();
    agent.set::<ToolkitSetConfig>("", ToolkitSetConfig { toolkit_set: vec!["filesystem".to_string()] });
    agent.set::<ToolkitSetConfig>("r1", ToolkitSetConfig { toolkit_set: vec!["web".to_string()] });
    let tk: ToolkitSetConfig = agent.build("r1");
    assert!(tk.toolkit_set.contains(&"filesystem".to_string()) && tk.toolkit_set.contains(&"web".to_string()), "agent + role 并集");
}

#[test]
fn merge_none_uses_globals() {
    let eff = merge_context_config(None, None);
    assert_eq!(eff.channel_batch_interval_secs, DEFAULT_CHANNEL_BATCH_INTERVAL_SECS);
    assert_eq!(eff.memory_time_secs, DEFAULT_MEMORY_TIME_SECS);
    assert_eq!(eff.memory_count, DEFAULT_MEMORY_COUNT);
    assert!(eff.stations.is_empty());
}

fn agent_context(interval: u64, time: u64, count: usize, prompt: &str, stations: Vec<&str>) -> AgentContextConfig {
    AgentContextConfig {
        default_channel_batch_interval_secs: interval,
        default_memory_time_secs: time,
        default_memory_count: count,
        default_compress_prompt: prompt.into(),
        default_stations: stations.into_iter().map(|s| s.to_string()).collect(),
        roles: Registry::new(),
    }
}

#[test]
fn merge_agent_then_role_override() {
    let agent = agent_context(5, 7200, 100, "agent模板", vec!["s1"]);
    let role = RoleContextConfig {
        channel_batch_interval_secs: Some(7),
        memory_time_secs: None,
        memory_count: None,
        compress_prompt: None,
        stations: None,
    };
    let eff = merge_context_config(Some(&agent), Some(&role));
    assert_eq!(eff.channel_batch_interval_secs, 7, "role 覆盖 agent");
    assert_eq!(eff.memory_time_secs, 7200, "role 未配继承 agent");
    assert_eq!(eff.memory_count, 100);
    assert_eq!(eff.compress_prompt, "agent模板");
    assert!(eff.stations.contains(&"s1".to_string()));
}

#[test]
fn role_stations_override_agent() {
    let agent = agent_context(3, 3600, 50, "t", vec!["s1"]);
    let role = RoleContextConfig {
        channel_batch_interval_secs: None,
        memory_time_secs: None,
        memory_count: None,
        compress_prompt: None,
        stations: Some(vec!["s2".to_string()]),
    };
    let eff = merge_context_config(Some(&agent), Some(&role));
    assert!(eff.stations.contains(&"s2".to_string()) && !eff.stations.contains(&"s1".to_string()), "role stations 整体覆盖");
}

#[test]
fn add_remove_admin_missing_channel_errors() {
    let mut repo = NexusRepo::new();
    let admin = ChannelUser { messenger_id: "m1".into(), user_id: "u1".into() };
    let err = repo.add_admin("nope", &admin).unwrap_err();
    assert!(matches!(err, AgentError::ConfigNotFound(ref m) if m == "channel 不存在: nope"));
    let err = repo.remove_admin("nope", "m1", "u1").unwrap_err();
    assert!(matches!(err, AgentError::ConfigNotFound(_)));
}

#[test]
fn admins_grant_and_withdraw() {
    let mut repo = NexusRepo::new();
    repo.add_channel(sample_channel("web-main"));
    let admin = ChannelUser { messenger_id: "m1".into(), user_id: "u1".into() };
    repo.add_admin("web-main", &admin).unwrap();
    repo.add_admin("web-main", &admin).unwrap();
    assert_eq!(repo.channel("web-main").unwrap().admins.len(), 1, "重复添加幂等");
    assert_eq!(repo.admin_users(), vec![admin.clone()]);
    repo.remove_admin("web-main", "m1", "u1").unwrap();
    assert!(repo.channel("web-main").unwrap().admins.is_empty());
}

#[test]
fn update_channel_mutates_and_reports_missing() {
    let mut repo = NexusRepo::new();
    repo.add_channel(sample_channel("web-main"));
    repo.update_channel("web-main", ChannelUpdate::SetAgentRole { agent_id: "a1".into(), role_name: "".into() }).unwrap();
    repo.update_channel("web-main", ChannelUpdate::BindUser(ChannelUser { messenger_id: "web".into(), user_id: "u2".into() })).unwrap();
    let ch = repo.channel("web-main").unwrap();
    assert_eq!(ch.agent_id, "a1");
    assert_eq!(ch.bind_users.len(), 2, "bind_users 追加应可见");
    let err = repo.update_channel("nope", ChannelUpdate::SetEnabled(false)).unwrap_err();
    assert!(matches!(err, AgentError::ConfigNotFound(_)));
}

#[test]
fn channel_config_agent_id_empty_normalizes_to_reserved() {
    assert_eq!(ChannelConfig::normalize_agent_id(""), "0", "空串应归一化为保留 id");
    assert_eq!(ChannelConfig::normalize_agent_id("a1"), "a1");
}

#[test]
fn provider_crud() {
    let mut repo = NexusRepo::new();
    repo.add_provider("deepseek", sample_provider()).unwrap();
    let eff = repo.provider_model_config("deepseek", "deepseek-4-flash").expect("model 未配置也应合成");
    assert_eq!(eff.timeout_secs, 60, "未配置参数取 provider 默认值");
    let provider = with_model(sample_provider(), "gpt-4o", ModelConfig { max_tokens_usage: 262144, timeout_secs: None, retry_count: None });
    repo.add_provider("openai", provider).unwrap();
    let err = repo.add_provider("openai", sample_provider()).unwrap_err();
    assert!(matches!(err, AgentError::ConfigNotFound(ref m) if m == "provider 已存在: openai"));
    assert_eq!(repo.provider_model_config("openai", "gpt-4o").unwrap().max_tokens_usage, 262144);
    repo.remove_provider("openai").unwrap();
    assert!(repo.provider_model_config("openai", "gpt-4o").is_none());
    let err = repo.remove_provider("nope").unwrap_err();
    assert!(matches!(err, AgentError::ConfigNotFound(ref m) if m == "provider 不存在: nope"));
    let pc = repo.provider_config("deepseek").unwrap();
    assert_eq!(pc.api_key, "sk-test");
    assert!(repo.provider_config("openai").is_none());
}

#[test]
fn session_config_falls_back_to_agent_role_config() {
    let mut repo = NexusRepo::new();
    repo.set_agent_role_config::<LLMConfig>("a1", "", llm_config("deepseek", "deepseek-chat"));
    let mut role_llm = LLMConfig::default();
    role_llm.set_max_tokens(Some(4096));
    repo.set_agent_role_config::<LLMConfig>("a1", "r1", role_llm);
    let eff: EffectiveLLMConfig = repo.session_config::<LLMConfig>(&session_key("a1", "r1"));
    assert_eq!(eff.provider, "deepseek", "继承 agent 默认");
    assert_eq!(eff.model, "deepseek-chat", "继承 agent 默认");
    assert_eq!(eff.max_tokens, Some(4096), "role 覆盖 agent");
    let again: EffectiveLLMConfig = repo.session_config::<LLMConfig>(&session_key("a1", "r1"));
    assert_eq!(again.model, eff.model, "同 key 返回缓存的同一份配置");
    let none: EffectiveLLMConfig = repo.session_config::<LLMConfig>(&session_key("nope", "r1"));
    assert!(none.provider.is_empty() && none.model.is_empty(), "未知 agent 用默认值");
}

#[test]
fn session_config_uses_global_defaults_for_compress() {
    let mut repo = NexusRepo::new();
    let eff: EffectiveCompressConfig = repo.session_config::<CompressConfig>(&session_key("a1", "r1"));
    assert_eq!(eff.compress_threshold, DEFAULT_COMPRESS_THRESHOLD_BITS);
    assert_eq!(f64::from_bits(eff.compress_threshold), 0.8);
    assert_eq!(eff.compress_prompt.as_str(), DEFAULT_COMPRESS_PROMPT);
    let cfg = CompressConfig { compress_prompt: None, compress_threshold: Some(0.5f64.to_bits()) };
    repo.set_agent_role_config::<CompressConfig>("a2", "", cfg);
    let eff: EffectiveCompressConfig = repo.session_config::<CompressConfig>(&session_key("a2", "r1"));
    assert_eq!(f64::from_bits(eff.compress_threshold), 0.5, "agent 级覆盖生效");
    assert_eq!(eff.compress_prompt.as_str(), DEFAULT_COMPRESS_PROMPT, "未配字段保留默认");
}

#[test]
fn session_config_channel_batch_uses_default_interval() {
    let mut repo = NexusRepo::new();
    let eff: ChannelBatchConfig = repo.session_config::<ChannelBatchConfig>(&session_key("a1", "r1"));
    assert_eq!(eff.channel_batch_interval_secs, DEFAULT_CHANNEL_BATCH_INTERVAL_SECS, "未配回落默认间隔");
}

#[test]
fn session_config_memory_recover_uses_defaults() {
    let mut repo = NexusRepo::new();
    let eff = repo.session_config::<MemoryRecoverConfig>(&session_key("a1", "r1"));
    assert_eq!(eff.memory_time_secs, DEFAULT_MEMORY_TIME_SECS);
    assert_eq!(eff.memory_count, DEFAULT_MEMORY_COUNT);
}

#[test]
fn set_session_config_overrides_agent_role_config() {
    let mut repo = NexusRepo::new();
    repo.set_agent_role_config::<LLMConfig>("a1", "r1", llm_config("deepseek", "deepseek-chat"));
    let key = session_key("a1", "r1");
    let before: EffectiveLLMConfig = repo.session_config::<LLMConfig>(&key);
    assert_eq!(before.model.as_str(), "deepseek-chat");
    let mut session_llm = LLMConfig::default();
    session_llm.model = Some("deepseek-reasoner".into());
    repo.set_session_config::<LLMConfig>(&key, &session_llm);
    let after: EffectiveLLMConfig = repo.session_config::<LLMConfig>(&key);
    assert_eq!(after.model.as_str(), "deepseek-reasoner", "session 覆盖生效");
    assert_eq!(after.provider.as_str(), "deepseek", "未配字段保留原值");
}

#[test]
fn set_session_config_creates_entry_when_absent() {
    let mut repo = NexusRepo::new();
    let key = session_key("a1", "r1");
    repo.set_session_config::<LLMConfig>(&key, &llm_config("openai", "gpt-4o"));
    let eff: EffectiveLLMConfig = repo.session_config::<LLMConfig>(&key);
    assert_eq!(eff.provider.as_str(), "openai");
    assert_eq!(eff.model.as_str(), "gpt-4o");
    assert_eq!(repo.sessions.len(), 1, "一条 session 配置");
}

#[test]
fn set_out_channel_roundtrips_via_session_config() {
    let mut repo = NexusRepo::new();
    let out = OutChannel {
        channel_id: "web-main".into(),
        user: ChannelUser { messenger_id: "web".into(), user_id: "u1".into() },
        group_id: "g1".into(),
    };
    repo.set_out_channel("a1", "", Some(out));
    let cfg: OutChannelConfig = repo.session_config::<OutChannelConfig>(&session_key("a1", "r1"));
    let got = cfg.out_channel.as_ref().expect("agent 级 out_channel 应被继承");
    assert_eq!(got.channel_id.as_str(), "web-main");
    assert_eq!(got.user.user_id.as_str(), "u1");
    repo.set_out_channel("a1", "", None);
    let cfg: OutChannelConfig = repo.session_config::<OutChannelConfig>(&session_key("a1", "r2"));
    assert!(cfg.out_channel.is_none(), "清除后不再继承");
}

#[test]
fn set_agent_role_config_merges_into_existing() {
    let mut repo = NexusRepo::new();
    repo.set_agent_role_config::<LLMConfig>("a1", "", llm_config("deepseek", "deepseek-chat"));
    let mut more = LLMConfig::default();
    more.set_max_tokens(Some(4096));
    repo.set_agent_role_config::<LLMConfig>("a1", "", more);
    let eff: EffectiveLLMConfig = repo.session_config::<LLMConfig>(&session_key("a1", ""));
    assert_eq!(eff.provider.as_str(), "deepseek", "已有取值不被覆盖");
    assert_eq!(eff.model.as_str(), "deepseek-chat");
    assert_eq!(eff.max_tokens, Some(4096), "第二次配置合并进同一条");
}

#[test]
fn repo_nexus_repo_default_empty() {
    let repo = NexusRepo::new();
    assert_eq!(repo.channels.len(), 0);
    assert_eq!(repo.providers.len(), 0, "no models");
    assert_eq!(repo.memory_structs.len(), 0);
    assert_eq!(repo.agents.len(), 0, "no agent configured");
    assert_eq!(repo.sessions.len(), 0);
}
