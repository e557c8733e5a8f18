use kissbot_agent::error::AgentError;
use kissbot_agent::json::Json;
use kissbot_agent::management::{
    api_key_matches, handle_management, reply_status, should_persist, ManagementReply, ManagementRequest,
};
use kissbot_agent::message::Message;
use kissbot_agent::nexus_repo::{ChannelConfig, ModelConfig, NexusRepo, ProviderConfig, ProviderModelConfig};
use kissbot_agent::pipelines::{compress_outcome, compress_request, TokenLimitMessageSender, TokenReducerKind};
use kissbot_agent::provider::ModelResponse;
use kissbot_agent::registry::Registry;
use kissbot_agent::types::{ChannelUser, Mode, SessionKey};

fn provider() -> ProviderModelConfig {
    ProviderModelConfig {
        provider_config: ProviderConfig {
            provider_type: "openai".into(),
            base_url: "https://api.deepseek.com".into(),
            api_key: "sk-test".into(),
        },
        default_model_config: ModelConfig { max_tokens_usage: 128000, timeout_secs: Some(60), retry_count: Some(3) },
        model_configs: Registry::new(),
    }
}

fn channel(id: &str) -> ChannelConfig {
    ChannelConfig {
        channel_id: id.into(),
        ws_url: "ws://127.0.0.1:8201".into(),
        admins: vec![],
        bind_users: vec![],
        agent_id: "0".into(),
        role_name: "".into(),
        enabled: true,
    }
}

#[test]
fn management_requests_are_authorized_and_applied() {
    let mut repo = NexusRepo::new();
    assert!(!api_key_matches(None, "admin-key-123"));
    assert!(!api_key_matches(Some("wrong"), "admin-key-123"));
    assert!(api_key_matches(Some("admin-key-123"), "admin-key-123"));

    let r = handle_management(&mut repo, false, ManagementRequest::GetConfig);
    assert!(matches!(r, ManagementReply::Unauthorized));
    assert_eq!(reply_status(&r), 401);

    let r = handle_management(&mut repo, true, ManagementRequest::GetConfig);
    assert!(matches!(r, ManagementReply::Config));
    assert_eq!(reply_status(&r), 200);
    assert!(!should_persist(&r));

    let r = handle_management(&mut repo, true, ManagementRequest::AddProvider { name: "deepseek".into(), config: provider() });
    assert!(matches!(r, ManagementReply::Done));
    assert!(should_persist(&r));
    let r = handle_management(&mut repo, true, ManagementRequest::AddProvider { name: "deepseek".into(), config: provider() });
    assert!(matches!(r, ManagementReply::Failed(AgentError::ConfigNotFound(_))));
    assert_eq!(reply_status(&r), 200);
    assert!(!should_persist(&r), "a refused change is not saved");

    let r = handle_management(&mut repo, true, ManagementRequest::RemoveProvider { name: "deepseek".into() });
    assert!(matches!(r, ManagementReply::Done));
    assert!(repo.provider_config("deepseek").is_none());

    let r = handle_management(&mut repo, true, ManagementRequest::AddChannel { channel: channel("web-main") });
    assert!(matches!(r, ManagementReply::Done));
    let admin = ChannelUser { messenger_id: "web".into(), user_id: "u2".into() };
    let r = handle_management(&mut repo, true, ManagementRequest::AddAdmin { channel_id: "web-main".into(), user: admin.clone() });
    assert!(matches!(r, ManagementReply::Done));
    assert!(repo.channel("web-main").unwrap().admins.contains(&admin));
    let r = handle_management(&mut repo, true, ManagementRequest::AddAdmin { channel_id: "nope".into(), user: admin.clone() });
    assert!(matches!(r, ManagementReply::Failed(_)));
    let r = handle_management(&mut repo, true, ManagementRequest::RemoveAdmin { channel_id: "web-main".into(), user: admin.clone() });
    assert!(matches!(r, ManagementReply::Done));
    assert!(!repo.channel("web-main").unwrap().admins.contains(&admin));
    let r = handle_management(&mut repo, true, ManagementRequest::RemoveChannel { channel_id: "web-main".into() });
    assert!(matches!(r, ManagementReply::Done));
    assert!(repo.channel("web-main").is_none());
}

fn key() -> SessionKey {
    SessionKey { agent_id: "a1".into(), role_name: "r1".into(), mode: Mode::Role }
}

#[test]
fn token_limit_sender_tracks_usage() {
    let mut s = TokenLimitMessageSender::new_compress(key());
    assert_eq!(s.reducer, TokenReducerKind::Compress);
    assert_eq!(s.last_total_tokens, 0);
    assert!(!s.needs_reduce(1000, 800));
    s.record_reply(Some(900));
    assert!(s.needs_reduce(1000, 800));
    assert!(!s.needs_reduce(0, 800), "a model without a budget never shrinks");
    s.record_reply(None);
    assert_eq!(s.last_total_tokens, 900, "a failed call keeps the count");
    s.record_reduced(100);
    assert!(!s.needs_reduce(1000, 800));
    let m = TokenLimitMessageSender::new_memory_recover(key());
    assert_eq!(m.reducer, TokenReducerKind::MemoryRecover);
}

#[test]
fn compress_outcome_keeps_prompt_and_summary() {
    assert!(matches!(compress_request("summarise"), Message::User { content } if content == "summarise"));
    let reply = ModelResponse {
        raw_content: Json::Str("summary".into()),
        content: Some("summary".into()),
        thinking: None,
        raw_reasoning_content: Json::Null,
        reasoning_content: None,
        raw_tool_calls: Json::Null,
        tool_calls: None,
        finish_reason: None,
        total_tokens: 321,
    };
    let (msgs, tokens) = compress_outcome("summarise", Ok(reply));
    let msgs = msgs.unwrap();
    assert_eq!(tokens, 321);
    assert_eq!(msgs.len(), 2);
    assert!(matches!(&msgs[0], Message::User { content } if content == "summarise"));
    assert!(matches!(&msgs[1], Message::Assistant { content: Json::Str(s), .. } if s == "summary"));
    let (msgs, tokens) = compress_outcome("summarise", Err(AgentError::ModelApiError("x".into())));
    assert!(msgs.is_none());
    assert_eq!(tokens, 0);
}
