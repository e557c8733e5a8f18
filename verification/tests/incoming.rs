use kissbot_agent::channel::ChannelManager;
use kissbot_agent::error::AgentError;
use kissbot_agent::incoming::{command_failure_text, route_incoming, IncomingRoute};
use kissbot_agent::key_change::{apply_channel_key, model_listed, session_model_config, set_default_model};
use kissbot_agent::configs::LLMConfig;
use kissbot_agent::message::{Content, IncomingMessage};
use kissbot_agent::nexus_repo::{ChannelConfig, NexusRepo};
use kissbot_agent::types::{ChannelUser, Mode, SessionKey};

fn msg(user: &str, content: Content) -> IncomingMessage {
    IncomingMessage {
        msg_id: "m1".into(),
        messenger_id: "web".into(),
        user_id: user.into(),
        group_id: "g1".into(),
        messenger_name: "".into(),
        user_name: "name".into(),
        group_name: "".into(),
        content,
        time: "2026-08-05 10:00:00".into(),
    }
}

fn repo() -> NexusRepo {
    let mut repo = NexusRepo::new();
    repo.add_channel(ChannelConfig {
        channel_id: "c1".into(),
        ws_url: "ws://h".into(),
        admins: vec![ChannelUser { messenger_id: "web".into(), user_id: "boss".into() }],
        bind_users: vec![],
        agent_id: "a1".into(),
        role_name: "r1".into(),
        enabled: true,
    });
    repo
}

#[test]
fn commands_from_admins_only() {
    let repo = repo();
    let channels = ChannelManager::new();
    match route_incoming(&repo, &channels, "c1", &msg("boss", Content::Text("/role r2".into()))) {
        IncomingRoute::Command(t) => assert_eq!(t, "/role r2"),
        other => panic!("unexpected route: {:?}", other),
    }
    assert!(matches!(route_incoming(&repo, &channels, "c1", &msg("guest", Content::Text("/role r2".into()))), IncomingRoute::Ignore));
    assert!(matches!(route_incoming(&repo, &channels, "nope", &msg("boss", Content::Text("hi".into()))), IncomingRoute::Ignore));
    // a leading space is no command
    assert!(matches!(
        route_incoming(&repo, &channels, "c1", &msg("boss", Content::Text(" /role".into()))),
        IncomingRoute::Session { .. }
    ));
}

#[test]
fn messages_go_to_the_channel_session_in_its_mode() {
    let repo = repo();
    let mut channels = ChannelManager::new();
    match route_incoming(&repo, &channels, "c1", &msg("u1", Content::Text("hello".into()))) {
        IncomingRoute::Session { key, role_event, run } => {
            assert_eq!(key, SessionKey { agent_id: "a1".into(), role_name: "r1".into(), mode: Mode::Role });
            assert_eq!(role_event, "r1");
            assert!(run);
        }
        other => panic!("unexpected route: {:?}", other),
    }
    channels.set_mode("c1", Mode::Event("e7".into()));
    match route_incoming(&repo, &channels, "c1", &msg("u1", Content::GroupJoin)) {
        IncomingRoute::Session { key, role_event, run } => {
            assert_eq!(key.mode, Mode::Event("e7".into()));
            assert_eq!(role_event, "r1-e7");
            assert!(!run, "notices are only remembered");
        }
        other => panic!("unexpected route: {:?}", other),
    }
}

#[test]
fn command_failures_are_explained() {
    assert_eq!(command_failure_text(&AgentError::InvalidCommand("未知命令".into())), "⚠️ 未知命令");
    assert_eq!(
        command_failure_text(&AgentError::ConfigNotFound("channel 不存在: c9".into())),
        "❌ 命令执行失败: Config not found: channel 不存在: c9"
    );
    assert_eq!(AgentError::PermissionDenied.message(), "Permission denied");
    assert_eq!(
        AgentError::PipelineNotFound(SessionKey { agent_id: "a".into(), role_name: "r".into(), mode: Mode::Event("e".into()) }).message(),
        format!("Pipeline not found for session {:?}", SessionKey { agent_id: "a".into(), role_name: "r".into(), mode: Mode::Event("e".into()) })
    );
    let odd = SessionKey { agent_id: "a\"b".into(), role_name: "line\nbreak\\".into(), mode: Mode::Role };
    assert_eq!(
        AgentError::PipelineNotFound(odd.clone()).message(),
        format!("Pipeline not found for session {:?}", odd)
    );
    assert_eq!(
        AgentError::PipelineNotFound(odd).message(),
        "Pipeline not found for session SessionKey { agent_id: \"a\\\"b\", role_name: \"line\\nbreak\\\\\", mode: Role }"
    );
}

#[test]
fn channel_key_changes_keep_what_is_left_out() {
    let mut repo = repo();
    let mut channels = ChannelManager::new();
    let k = apply_channel_key(&mut repo, &mut channels, "c1", None, Some("r2".into()), None).unwrap();
    assert_eq!(k, SessionKey { agent_id: "a1".into(), role_name: "r2".into(), mode: Mode::Role });
    assert_eq!(repo.channel("c1").unwrap().role_name, "r2");
    let k = apply_channel_key(&mut repo, &mut channels, "c1", Some("a2".into()), None, Some(Mode::Event("e".into()))).unwrap();
    assert_eq!(k, SessionKey { agent_id: "a2".into(), role_name: "r2".into(), mode: Mode::Event("e".into()) });
    assert_eq!(channels.mode("c1"), Mode::Event("e".into()));
    match apply_channel_key(&mut repo, &mut channels, "nope", None, None, Some(Mode::Role)) {
        Err(AgentError::ConfigNotFound(m)) => assert_eq!(m, "channel 不存在: nope"),
        _ => panic!("an unknown channel is refused"),
    }
    assert_eq!(channels.mode("nope"), Mode::Role);
}

#[test]
fn messages_follow_a_changed_channel_key() {
    let mut repo = repo();
    repo.add_channel(ChannelConfig {
        channel_id: "c2".into(),
        ws_url: "ws://h2".into(),
        admins: vec![],
        bind_users: vec![],
        agent_id: "a9".into(),
        role_name: "r9".into(),
        enabled: true,
    });
    let mut channels = ChannelManager::new();
    let k = apply_channel_key(&mut repo, &mut channels, "c1", Some("a2".into()), Some("r3".into()), Some(Mode::Event("ev".into())))
        .unwrap();
    match route_incoming(&repo, &channels, "c1", &msg("u1", Content::Text("hello".into()))) {
        IncomingRoute::Session { key, role_event, .. } => {
            assert_eq!(key, k);
            assert_eq!(role_event, "r3-ev");
        }
        other => panic!("unexpected route: {:?}", other),
    }
    match route_incoming(&repo, &channels, "c2", &msg("u1", Content::Text("hello".into()))) {
        IncomingRoute::Session { key, .. } => {
            assert_eq!(key, SessionKey { agent_id: "a9".into(), role_name: "r9".into(), mode: Mode::Role })
        }
        other => panic!("unexpected route: {:?}", other),
    }
}

#[test]
fn model_switch_checks_the_list() {
    let models = vec!["m1".to_string(), "m2".to_string()];
    assert!(model_listed(&models, "p", "m2").is_ok());
    match model_listed(&models, "p", "m9") {
        Err(AgentError::ModelProviderNotSupported(m)) => assert_eq!(m, "模型 m9 不在 p 的 API 模型列表"),
        _ => panic!("an unlisted model is refused"),
    }
    let c = session_model_config("p", "m2");
    assert_eq!(c.provider.as_deref(), Some("p"));
    assert_eq!(c.model.as_deref(), Some("m2"));
    assert!(!c.has_max_tokens && c.max_tokens.is_none());
}

#[test]
fn a_default_model_is_what_the_agent_sessions_use() {
    let mut repo = repo();
    let mut agent_llm = LLMConfig::default();
    agent_llm.set_temperature(Some(0.5f32.to_bits()));
    repo.set_agent_role_config::<LLMConfig>("a1", "", agent_llm);
    set_default_model(&mut repo, "a1", "openai", "gpt-4o");
    let layer = repo.agent_config("a1").config_map.llm.expect("the agent has a model setting");
    assert_eq!(layer.provider.as_deref(), Some("openai"));
    assert_eq!(layer.model.as_deref(), Some("gpt-4o"));
    assert_eq!(layer.temperature, Some(0.5f32.to_bits()), "other settings are kept");
    let key = SessionKey { agent_id: "a1".into(), role_name: "r1".into(), mode: Mode::Role };
    let llm = repo.session_config::<LLMConfig>(&key);
    assert_eq!((llm.provider.as_str(), llm.model.as_str()), ("openai", "gpt-4o"));
    assert!(repo.agent_config("a2").config_map.llm.is_none(), "other agents are untouched");
}
