use kissbot_agent::command::{parse_command, Command};
use kissbot_agent::command_exec::{command_reply, event_id_for, execute_config_command, CommandOutcome, CommandRouter};
use kissbot_agent::configs::OutChannelConfig;
use kissbot_agent::error::AgentError;
use kissbot_agent::nexus_repo::{ChannelConfig, NexusRepo};
use kissbot_agent::types::{ChannelUser, Mode, SessionKey};

fn repo_with_channel() -> NexusRepo {
    let mut repo = NexusRepo::new();
    repo.add_channel(ChannelConfig {
        channel_id: "web-main".into(),
        ws_url: "ws://127.0.0.1:8201".into(),
        admins: vec![],
        bind_users: vec![ChannelUser { messenger_id: "web".into(), user_id: "u1".into() }],
        agent_id: "a1".into(),
        role_name: "".into(),
        enabled: true,
    });
    repo
}

fn invalid(r: Result<Command, AgentError>) -> String {
    match r {
        Err(AgentError::InvalidCommand(m)) => m,
        other => panic!("invalid command expected, got {:?}", other),
    }
}

#[test]
fn parse_rejects_text_without_slash_or_name() {
    assert_eq!(invalid(parse_command("bind messenger a b")), "命令必须以 / 开头");
    assert_eq!(invalid(parse_command("  /  ")), "空命令");
    assert_eq!(invalid(parse_command("/nope")), "未知命令: nope");
    assert_eq!(invalid(parse_command("/bind x a b")), "格式: /bind messenger <messenger_id> <user_id>");
    assert_eq!(invalid(parse_command("/mode foo")), "未知模式: foo");
    assert_eq!(invalid(parse_command("/model p m maybe")), "格式: /model <provider> <model> [true|false]");
    assert_eq!(invalid(parse_command("/unbind-outgoing x")), "格式: /unbind-outgoing（无参数）");
}

#[test]
fn parse_fills_defaults() {
    match parse_command("/agent").unwrap() {
        Command::Agent { agent_id, role } => {
            assert_eq!(agent_id, "0", "缺省 agent 为保留 agent");
            assert_eq!(role, "");
        },
        other => panic!("{:?}", other),
    }
    match parse_command(" /model deepseek chat true ").unwrap() {
        Command::Model { provider, model, set_default } => {
            assert_eq!((provider.as_str(), model.as_str(), set_default), ("deepseek", "chat", true));
        },
        other => panic!("{:?}", other),
    }
    assert!(matches!(parse_command("/mode event").unwrap(), Command::ModeEvent { event_id: None }));
}

#[test]
fn config_commands_edit_the_repository() {
    let mut repo = repo_with_channel();
    let r = CommandRouter::execute(&mut repo, "/admin m1 u9", "web-main").unwrap();
    assert!(matches!(r, CommandOutcome::Done(ref t) if t == "✅ 已添加管理权限: m1 / u9"));
    assert_eq!(repo.channel("web-main").unwrap().admins.len(), 1);
    let r = CommandRouter::execute(&mut repo, "/unadmin m1 u9", "web-main").unwrap();
    assert!(matches!(r, CommandOutcome::Done(ref t) if t == "✅ 已移除管理权限: m1 / u9"));
    assert!(repo.channel("web-main").unwrap().admins.is_empty());
    let r = CommandRouter::execute(&mut repo, "/bind messenger web u2", "web-main").unwrap();
    assert!(matches!(r, CommandOutcome::Done(ref t) if t == "✅ 已绑定 channel 用户: web / u2"));
    assert_eq!(repo.channel("web-main").unwrap().bind_users.len(), 2);
    let err = CommandRouter::execute(&mut repo, "/admin m1 u9", "nope").unwrap_err();
    assert!(matches!(err, AgentError::ConfigNotFound(ref m) if m == "channel 不存在: nope"));
}

#[test]
fn bind_outgoing_requires_bound_identity_and_unbind_clears_it() {
    let mut repo = repo_with_channel();
    let err = CommandRouter::execute(&mut repo, "/bind-outgoing web u7 g1", "web-main").unwrap_err();
    assert!(matches!(err, AgentError::InvalidCommand(ref m) if m == "ChannelUser 未绑定: web / u7"));
    let r = CommandRouter::execute(&mut repo, "/bind-outgoing web u1 g1", "web-main").unwrap();
    assert!(matches!(r, CommandOutcome::Done(ref t) if t == "✅ 已设发送通道: web / u1 -> g1"));
    let key = SessionKey { agent_id: "a1".into(), role_name: "".into(), mode: Mode::Role };
    let cfg: OutChannelConfig = repo.session_config::<OutChannelConfig>(&key);
    assert_eq!(cfg.out_channel.as_ref().unwrap().group_id, "g1");
    // unbinding the identity the reply channel speaks as clears the reply channel
    let r = CommandRouter::execute(&mut repo, "/unbind messenger web u1", "web-main").unwrap();
    assert!(matches!(r, CommandOutcome::Done(ref t) if t == "✅ 已移除 channel 用户: web / u1"));
    let key2 = SessionKey { agent_id: "a1".into(), role_name: "".into(), mode: Mode::Event("e".into()) };
    let cfg: OutChannelConfig = repo.session_config::<OutChannelConfig>(&key2);
    assert!(cfg.out_channel.is_none());
}

#[test]
fn unbind_outgoing_clears_reply_channel() {
    let mut repo = repo_with_channel();
    CommandRouter::execute(&mut repo, "/bind-outgoing web u1 g1", "web-main").unwrap();
    let r = CommandRouter::execute(&mut repo, "/unbind-outgoing", "web-main").unwrap();
    assert!(matches!(r, CommandOutcome::Done(ref t) if t == "✅ 已取消发送通道（只存不回复）"));
    let key = SessionKey { agent_id: "a1".into(), role_name: "".into(), mode: Mode::Role };
    let cfg: OutChannelConfig = repo.session_config::<OutChannelConfig>(&key);
    assert!(cfg.out_channel.is_none());
}

#[test]
fn runtime_commands_are_handed_back() {
    let mut repo = repo_with_channel();
    let r = CommandRouter::execute(&mut repo, "/role r2", "web-main").unwrap();
    match r {
        CommandOutcome::Runtime(cmd) => assert_eq!(command_reply(&cmd, ""), "✅ 已设置 role: r2"),
        _ => panic!("runtime expected"),
    }
    let cmd = parse_command("/model p m true").unwrap();
    assert_eq!(command_reply(&cmd, ""), "✅ 已切换模型为: p/m（已设为默认）");
    let cmd = parse_command("/mode event").unwrap();
    assert_eq!(command_reply(&cmd, "id-1"), "✅ 新事件 ID: id-1");
    let cmd = parse_command("/agent a9 dev").unwrap();
    assert_eq!(command_reply(&cmd, ""), "✅ 已设置 agent: a9 / role: dev");
    assert!(execute_config_command(&mut repo, "web-main", parse_command("/reenter e3").unwrap()).is_none());
}

#[test]
fn event_ids_are_given_or_fresh() {
    assert_eq!(event_id_for(&Some("e1".to_string())), "e1");
    let id = event_id_for(&None);
    assert_eq!(id.len(), 36);
    for (i, c) in id.chars().enumerate() {
        if i == 8 || i == 13 || i == 18 || i == 23 {
            assert_eq!(c, '-');
        } else {
            assert!(c.is_ascii_digit() || ('a'..='f').contains(&c), "lowercase hex: {}", id);
        }
    }
    assert_eq!(id.chars().nth(14), Some('4'));
    assert!(matches!(id.chars().nth(19), Some('8' | '9' | 'a' | 'b')));
    assert_ne!(id, event_id_for(&None));
}
