use kissbot_agent::channel::ChannelManager;
use kissbot_agent::configs::{LLMConfig, PipelineConfig};
use kissbot_agent::effective::EffectiveLLMConfig;
use kissbot_agent::error::AgentError;
use kissbot_agent::json::Json;
use kissbot_agent::nexus_repo::{ChannelConfig, ModelConfig, NexusRepo, ProviderConfig, ProviderModelConfig};
use kissbot_agent::pipelines::{
    create_agent_pipeline, create_agent_trigger, create_message_sender, ChannelOutputProcessor, InputProcessorKind,
    MessageSenderKind, OutputProcessorKind, PipelineManager, SystemPrompter, ToolCallerKind, MAX_TOOL_ROUNDS,
};
use kissbot_agent::provider::{
    final_error, provider_kind, resolve_model_call, resolve_provider, retry_step, ModelResponse, ProviderKind,
    RetryStep, ToolCall, ToolConfig, ToolData,
};
use kissbot_agent::registry::Registry;
use kissbot_agent::station::{
    filter_set, is_cycle, path_components, session_tools, starts_with_path, station_for_tool, ReadTool, StationHttpServer,
};
use kissbot_agent::types::{Mode, SessionKey};

fn provider(provider_type: &str) -> ProviderModelConfig {
    ProviderModelConfig {
        provider_config: ProviderConfig {
            provider_type: provider_type.into(),
            base_url: "https://api.example.com".into(),
            api_key: "sk-test".into(),
        },
        default_model_config: ModelConfig { max_tokens_usage: 128000, timeout_secs: None, retry_count: None },
        model_configs: Registry::new(),
    }
}

fn llm(provider: &str, model: &str) -> EffectiveLLMConfig {
    EffectiveLLMConfig {
        provider: provider.into(),
        model: model.into(),
        max_tokens: None,
        temperature: None,
        thinking: None,
        reasoning_effort: None,
    }
}

fn key(mode: Mode) -> SessionKey {
    SessionKey { agent_id: "a1".into(), role_name: "r1".into(), mode }
}

fn empty_pipeline_config() -> PipelineConfig {
    PipelineConfig {
        preset: None,
        input_processor: None,
        system_prompter: None,
        message_sender: None,
        tool_caller: None,
        output_processor: None,
    }
}

fn response(tool_calls: Option<Vec<ToolCall>>) -> ModelResponse {
    ModelResponse {
        raw_content: Json::Str("done".into()),
        content: Some("done".into()),
        thinking: None,
        raw_reasoning_content: Json::Null,
        reasoning_content: None,
        raw_tool_calls: Json::Null,
        tool_calls,
        finish_reason: Some("stop".into()),
        total_tokens: 0,
    }
}

#[test]
fn list_models_rejects_unknown_provider_type() {
    let mut repo = NexusRepo::new();
    repo.add_provider("typo-provider", provider("typo")).unwrap();
    let err = resolve_provider(&repo, "typo-provider").err().expect("an unknown type is refused");
    match err {
        AgentError::ModelProviderNotSupported(m) => assert!(m.contains("未知 provider_type: typo")),
        other => panic!("unexpected error: {:?}", other),
    }
}

#[test]
fn list_models_rejects_unknown_provider_name() {
    let repo = NexusRepo::new();
    let err = resolve_provider(&repo, "no-such-provider").err().expect("an unknown provider is refused");
    assert!(matches!(err, AgentError::ModelProviderNotFound(_, _)));
}

#[test]
fn provider_kind_maps_known_types() {
    assert_eq!(provider_kind("openai").unwrap(), ProviderKind::OpenAi);
    assert_eq!(provider_kind("anthropic").unwrap(), ProviderKind::Anthropic);
    assert!(matches!(provider_kind("OpenAI"), Err(AgentError::ModelProviderNotSupported(_))));
}

#[test]
fn resolve_model_call_uses_provider_and_model() {
    let mut repo = NexusRepo::new();
    let mut p = provider("anthropic");
    p.model_configs.insert("big-model".to_string(), ModelConfig {
        max_tokens_usage: 200000,
        timeout_secs: Some(90),
        retry_count: None,
    });
    repo.add_provider("remote-provider", p).unwrap();
    let (kind, eff) = resolve_model_call(&repo, &llm("remote-provider", "big-model")).unwrap();
    assert_eq!(kind, ProviderKind::Anthropic);
    assert_eq!(eff.max_tokens_usage, 200000);
    assert_eq!(eff.timeout_secs, 90);
    match resolve_model_call(&repo, &llm("missing", "m")) {
        Err(AgentError::ModelProviderNotFound(p, m)) => {
            assert_eq!(p, "missing");
            assert_eq!(m, "m");
        }
        other => panic!("unexpected: {:?}", other.is_ok()),
    }
}

#[test]
fn retry_step_backs_off_exponentially_then_gives_up() {
    assert_eq!(retry_step(0, 3, false), RetryStep::Sleep(1));
    assert_eq!(retry_step(1, 3, false), RetryStep::Sleep(2));
    assert_eq!(retry_step(2, 3, false), RetryStep::Sleep(4));
    assert_eq!(retry_step(3, 3, false), RetryStep::GiveUp);
    assert_eq!(retry_step(0, 3, true), RetryStep::GiveUp);
    assert_eq!(retry_step(0, 0, false), RetryStep::GiveUp);
}

#[test]
fn final_error_keeps_last_or_reports_generic() {
    assert!(matches!(final_error(Some(AgentError::HttpError("x".into()))), AgentError::HttpError(m) if m == "x"));
    assert!(matches!(final_error(None), AgentError::ModelApiError(m) if m == "模型调用失败"));
}

#[test]
fn pipeline_from_role_preset_uses_memory_recover() {
    let mut cfg = empty_pipeline_config();
    cfg.preset = Some(String::new());
    let p = create_agent_pipeline(key(Mode::Role), &cfg).expect("the role preset is complete");
    assert_eq!(p.message_sender, MessageSenderKind::MemoryRecover);
    assert_eq!(p.tool_caller, ToolCallerKind::Station);
    assert_eq!(p.output_processor, OutputProcessorKind::Channel);
    let e = create_agent_pipeline(key(Mode::Event("e1".into())), &cfg).expect("the event preset is complete");
    assert_eq!(e.message_sender, MessageSenderKind::Compress);
}

#[test]
fn pipeline_explicit_names_override_preset_and_unknown_fails() {
    let mut cfg = empty_pipeline_config();
    cfg.preset = Some("preset_role".into());
    cfg.message_sender = Some("raw_message_sender".into());
    let p = create_agent_pipeline(key(Mode::Role), &cfg).unwrap();
    assert_eq!(p.message_sender, MessageSenderKind::Raw);
    cfg.tool_caller = Some("nope".into());
    assert!(create_agent_pipeline(key(Mode::Role), &cfg).is_none());
    // no preset and nothing configured: no pipeline
    assert!(create_agent_pipeline(key(Mode::Role), &empty_pipeline_config()).is_none());
    assert!(create_message_sender("compress_message_sender") == Some(MessageSenderKind::Compress));
}

#[test]
fn trigger_from_preset_and_explicit_prompter() {
    let mut cfg = empty_pipeline_config();
    cfg.preset = Some("preset_event".into());
    let t = create_agent_trigger(key(Mode::Role), &cfg).unwrap();
    assert_eq!(t.input_processor, InputProcessorKind::Batch);
    assert!(matches!(t.system_prompter, SystemPrompter::MemoryEgo(_)));
    cfg.system_prompter = Some("default_system_prompter".into());
    let t = create_agent_trigger(key(Mode::Role), &cfg).unwrap();
    assert!(matches!(t.system_prompter, SystemPrompter::Default(_)));
    cfg.input_processor = Some("other".into());
    assert!(create_agent_trigger(key(Mode::Role), &cfg).is_none());
}

#[test]
fn output_processor_answers_tool_calls_and_limits_rounds() {
    let processor = ChannelOutputProcessor::new(key(Mode::Role));
    let calls = vec![
        ToolCall {
            id: "c1".into(),
            name: "get_date".into(),
            data: ToolData { arguments: Json::Null, result: Json::Str("2026".into()), error: Json::Null },
        },
        ToolCall {
            id: "c2".into(),
            name: "read".into(),
            data: ToolData { arguments: Json::Null, result: Json::Null, error: Json::Str("boom".into()) },
        },
    ];
    let d = processor.accept(1, Ok(response(Some(calls))));
    assert!(d.next);
    assert!(d.assistant.is_some());
    assert_eq!(d.tool_answers.len(), 2);
    assert_eq!(d.tool_answers[0].0, "c1");
    assert!(matches!(&d.tool_answers[0].1, Json::Str(s) if s == "2026"));
    assert!(matches!(&d.tool_answers[1].1, Json::Str(s) if s == "boom"));
    assert_eq!(d.reply.as_deref(), Some("done"));

    let last = vec![ToolCall {
        id: "c3".into(),
        name: "x".into(),
        data: ToolData { arguments: Json::Null, result: Json::Null, error: Json::Null },
    }];
    let d = processor.accept(MAX_TOOL_ROUNDS, Ok(response(Some(last))));
    assert!(!d.next, "the round limit stops the loop");

    let d = processor.accept(1, Ok(response(None)));
    assert!(!d.next);
    let d = processor.accept(1, Err(AgentError::ModelApiError("x".into())));
    assert!(!d.next && d.assistant.is_none() && d.tool_answers.is_empty() && d.reply.is_none());
}

#[test]
fn read_tool_confines_paths_to_cwd() {
    let tool = ReadTool::new("/work/dir".into());
    assert_eq!(tool.absolute_path("sub/a.txt"), "/work/dir/sub/a.txt");
    assert_eq!(tool.absolute_path("/etc/passwd"), "/etc/passwd");
    assert!(ReadTool::check_within("/work/dir/sub/a.txt".into(), "/work/dir", "sub/a.txt").is_ok());
    assert!(ReadTool::check_within("/work/dir".into(), "/work/dir", ".").is_ok());
    match ReadTool::check_within("/work/outside.txt".into(), "/work/dir", "../outside.txt") {
        Err(AgentError::InternalError(m)) => assert_eq!(m, "路径越界: ../outside.txt"),
        _ => panic!("an escaping path is refused"),
    }
    // a sibling whose name extends the directory's is outside
    assert!(ReadTool::check_within("/work/dir2/a".into(), "/work/dir", "x").is_err());
    assert_eq!(ReadTool::read_len(10), 10);
    assert_eq!(ReadTool::read_len(1 << 20), 65536);
}

#[test]
fn read_tool_takes_the_path_parameter() {
    let ok = Json::Object(vec![("path".to_string(), Json::Str("notes/a.txt".to_string()))]);
    match ReadTool::path_param(&ok) {
        Ok(p) => assert_eq!(p, "notes/a.txt"),
        Err(_) => panic!("a string path is taken"),
    }
    for bad in [Json::Object(vec![]), Json::Object(vec![("path".to_string(), Json::Bool(true))]), Json::Null] {
        match ReadTool::path_param(&bad) {
            Err(AgentError::InternalError(m)) => assert_eq!(m, "缺少参数 path"),
            _ => panic!("a call without a string path is refused"),
        }
    }
}

#[test]
fn path_helpers_compare_by_components() {
    assert_eq!(path_components("/a/./b//c"), vec!["a".to_string(), "b".to_string(), "c".to_string()]);
    assert!(starts_with_path("/a/b/c", "/a/b"));
    assert!(starts_with_path("/a/b/", "/a/b"));
    assert!(!starts_with_path("/a/bc", "/a/b"));
    assert!(!starts_with_path("a/b", "/a"));
}

#[test]
fn station_requests_filters_and_cycles() {
    let f = filter_set(&Some(vec!["fs".to_string(), "net".to_string(), "fs".to_string()])).unwrap();
    assert_eq!(f, vec!["fs".to_string(), "net".to_string()]);
    assert!(filter_set(&None).is_none());
    let ancestors = vec!["root".to_string(), "mid".to_string()];
    assert!(is_cycle(&ancestors, "root"));
    assert!(!is_cycle(&ancestors, "leaf"));
    assert_eq!(StationHttpServer::list_failure_status(&AgentError::StationCycle("x".into())), 400);
    assert_eq!(StationHttpServer::list_failure_status(&AgentError::InternalError("x".into())), 500);
    assert_eq!(StationHttpServer::call_failure_status(&AgentError::StationConnectionError("x".into())), 502);
    assert_eq!(StationHttpServer::call_failure_status(&AgentError::InternalError("x".into())), 200);
}

#[test]
fn llm_config_default_is_empty() {
    let c = LLMConfig::default();
    assert!(c.provider.is_none() && c.model.is_none());
}

#[test]
fn pipeline_manager_installs_and_prunes() {
    let mut pm = PipelineManager::new();
    let mut cfg = empty_pipeline_config();
    cfg.preset = Some(String::new());
    let k1 = key(Mode::Role);
    assert!(matches!(pm.trigger_of(&k1), Err(AgentError::PipelineNotFound(_))));
    pm.sync_pipeline(&k1, &cfg).unwrap();
    assert!(pm.trigger_of(&k1).is_ok());
    assert_eq!(pm.pipeline_of(&k1).unwrap().message_sender, MessageSenderKind::MemoryRecover);
    // an incomplete configuration installs nothing
    let k2 = key(Mode::Event("e".into()));
    assert!(matches!(pm.sync_pipeline(&k2, &empty_pipeline_config()), Err(AgentError::PipelineNotFound(k)) if k == k2));
    assert!(pm.pipeline_of(&k2).is_err());
    pm.sync_pipeline(&k2, &cfg).unwrap();
    pm.retain(&vec![k2.clone()]);
    assert!(pm.pipeline_of(&k1).is_err());
    assert!(pm.pipeline_of(&k2).is_ok());
}

#[test]
fn bound_session_keys_follow_channels_and_modes() {
    let mut repo = NexusRepo::new();
    for (id, role) in [("c1", "r1"), ("c2", "r2")] {
        repo.add_channel(ChannelConfig {
            channel_id: id.into(),
            ws_url: "ws://h".into(),
            admins: vec![],
            bind_users: vec![],
            agent_id: "a1".into(),
            role_name: role.into(),
            enabled: true,
        });
    }
    let mut channels = ChannelManager::new();
    channels.set_mode("c2", Mode::Event("e1".into()));
    let keys = channels.bound_session_keys(&repo);
    assert_eq!(keys.len(), 2);
    assert!(keys.contains(&SessionKey { agent_id: "a1".into(), role_name: "r1".into(), mode: Mode::Role }));
    assert!(keys.contains(&SessionKey { agent_id: "a1".into(), role_name: "r2".into(), mode: Mode::Event("e1".into()) }));
}

fn tool(name: &str) -> ToolConfig {
    ToolConfig { name: name.into(), description: format!("the {} tool", name), parameters: Json::Null }
}

#[test]
fn session_tools_come_from_enabled_stations_in_order() {
    let stations = vec![
        ("s1".to_string(), vec![tool("read"), tool("list")]),
        ("s2".to_string(), vec![tool("search")]),
        ("s3".to_string(), vec![tool("write")]),
    ];
    let names = |v: Vec<ToolConfig>| v.into_iter().map(|t| t.name).collect::<Vec<_>>();
    assert_eq!(names(session_tools(&vec!["s3".into(), "s1".into()], &stations)), vec!["read", "list", "write"]);
    assert!(session_tools(&vec!["s9".into()], &stations).is_empty());
    assert!(session_tools(&vec![], &stations).is_empty());
}

#[test]
fn a_tool_call_goes_to_the_first_enabled_station_with_the_tool() {
    let stations = vec![
        ("s1".to_string(), vec!["read".to_string()]),
        ("s2".to_string(), vec!["read".to_string(), "search".to_string()]),
    ];
    assert_eq!(station_for_tool(&vec!["s1".into(), "s2".into()], &stations, "read"), Some(0));
    assert_eq!(station_for_tool(&vec!["s2".into()], &stations, "read"), Some(1));
    assert_eq!(station_for_tool(&vec!["s1".into()], &stations, "search"), None);
    assert_eq!(station_for_tool(&vec!["s1".into(), "s2".into()], &stations, "nope"), None);
}
