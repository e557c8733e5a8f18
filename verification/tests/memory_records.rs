use kissbot_agent::configs::{OutChannel, OutChannelConfig};
use kissbot_agent::json::Json;
use kissbot_agent::memory_records::{
    admin_reply_message, channel_requests, check_reply_channel, incoming_record, out_channel_bound, outgoing_message, outgoing_record,
    placeholder_request, reply_to_send, think_requests, tool_call_requests, tool_result_requests, ChannelRecordRequest, SentMessage,
    ThinkRequest, ToolCallRequest, ToolResultRequest,
};
use kissbot_agent::message::{Content, IncomingMessage, IncomingMessageEvent};
use kissbot_agent::nexus_repo::{ChannelConfig, NexusRepo};
use kissbot_agent::types::{ChannelUser, Mode, SessionKey};

fn out_channel() -> OutChannel {
    OutChannel {
        channel_id: "c1".into(),
        user: ChannelUser { messenger_id: "web".into(), user_id: "bot".into() },
        group_id: "g1".into(),
    }
}

fn event() -> IncomingMessageEvent {
    IncomingMessageEvent {
        recipient_user_id: "bot".into(),
        incoming_message: IncomingMessage {
            msg_id: "m1".into(),
            messenger_id: "web".into(),
            user_id: "u1".into(),
            group_id: "g1".into(),
            messenger_name: "Web".into(),
            user_name: "Alice".into(),
            group_name: "Team".into(),
            content: Content::Text("hi".into()),
            time: "2026-08-03 10:00:00".into(),
        },
    }
}

#[test]
fn think_requests_force_is_one() {
    let reqs = think_requests(vec![ThinkRequest {
        agent_id: "a1".into(),
        role_name: "r1".into(),
        reasoning_content: Some("推理".into()),
        thinking: Some(String::new()),
        key: "k1".into(),
        time: "2026-08-04 10:00:00".into(),
    }]);
    assert_eq!(reqs.force, 1, "force 统一为 1");
    assert_eq!(reqs.requests[0].reasoning_content.as_deref(), Some("推理"));
}

#[test]
fn channel_requests_force_is_one() {
    let reqs = channel_requests(vec![ChannelRecordRequest {
        agent_id: "a1".into(),
        role_name: "r1".into(),
        messenger_id: "web".into(),
        user_id: "u1".into(),
        self_user_id: "u1".into(),
        group_id: "g1".into(),
        is_self: 0,
        messenger_name: "".into(),
        user_name: "".into(),
        group_name: "".into(),
        content: Content::Text("你好".into()),
        time: "2026-08-03 10:00:00".into(),
    }]);
    assert_eq!(reqs.force, 1, "channel force 统一为 1");
    assert_eq!(reqs.requests[0].user_id.as_str(), "u1");
}

#[test]
fn tool_call_and_result_requests_force_is_one() {
    let call = tool_call_requests(vec![ToolCallRequest {
        agent_id: "a1".into(),
        role_name: "r1".into(),
        tool_name: "get_date".into(),
        tool_params: Json::Object(vec![]),
        key: String::new(),
        time: "2026-08-03 10:00:00".into(),
    }]);
    assert_eq!(call.force, 1);
    assert_eq!(call.requests[0].tool_name.as_str(), "get_date");

    let result = tool_result_requests(vec![ToolResultRequest {
        agent_id: "a1".into(),
        role_name: "r1".into(),
        tool_result: Json::Object(vec![("ok".to_string(), Json::Bool(true))]),
        tool_error: Json::Null,
        key: String::new(),
        time: "2026-08-03 10:00:00".into(),
    }]);
    assert_eq!(result.force, 1);
    assert!(matches!(result.requests[0].tool_result.get("ok"), Json::Bool(true)));
}

#[test]
fn records_carry_who_spoke() {
    let e = event();
    let r = incoming_record("a1", "r1-e1", &e, Content::Text("hi".into()));
    assert_eq!((r.user_id.as_str(), r.self_user_id.as_str(), r.is_self), ("u1", "bot", 0));
    assert_eq!(r.role_name, "r1-e1");
    assert_eq!(r.user_name, "Alice");

    let sent = SentMessage {
        messenger_name: "Web".into(),
        user_name: "Bot".into(),
        group_name: "Team".into(),
        content: Content::Text("answer".into()),
        time: "2026-08-03 10:00:05".into(),
    };
    let r = outgoing_record("a1", "r1", &out_channel(), sent);
    assert_eq!((r.user_id.as_str(), r.self_user_id.as_str(), r.is_self), ("bot", "bot", 1));
    assert_eq!(r.time, "2026-08-03 10:00:05");

    let p = placeholder_request("a1", "r1", Content::Think("k9".into()), "2026-08-03 10:00:06", &out_channel());
    assert_eq!(p.is_self, 1);
    assert!(p.user_name.is_empty() && p.messenger_name.is_empty() && p.group_name.is_empty());
    assert!(matches!(p.content, Content::Think(ref k) if k == "k9"));
}

#[test]
fn replies_go_where_they_belong() {
    let m = admin_reply_message(&event(), "ok".into());
    assert_eq!((m.messenger_id.as_str(), m.user_id.as_str(), m.group_id.as_str()), ("web", "bot", "g1"));
    let m = outgoing_message(&out_channel(), "hello".into());
    assert_eq!(m.user_id, "bot");
    assert!(matches!(m.content, Content::Text(ref t) if t == "hello"));

    let mut repo = NexusRepo::new();
    assert!(!out_channel_bound(&repo, &out_channel()));
    repo.add_channel(ChannelConfig {
        channel_id: "c1".into(),
        ws_url: "ws://h".into(),
        admins: vec![],
        bind_users: vec![ChannelUser { messenger_id: "web".into(), user_id: "bot".into() }],
        agent_id: "a1".into(),
        role_name: "".into(),
        enabled: true,
    });
    assert!(out_channel_bound(&repo, &out_channel()));
}

#[test]
fn a_reply_goes_out_only_with_text_and_a_reply_channel() {
    let with = OutChannelConfig { out_channel: Some(out_channel()) };
    let without = OutChannelConfig { out_channel: None };
    match reply_to_send(Some("hello".into()), &with) {
        Some((o, t)) => {
            assert_eq!(t, "hello");
            assert_eq!((o.channel_id.as_str(), o.user.user_id.as_str(), o.group_id.as_str()), ("c1", "bot", "g1"));
        }
        None => panic!("text and a reply channel: the reply goes out"),
    }
    assert!(reply_to_send(None, &with).is_none());
    assert!(reply_to_send(Some("hello".into()), &without).is_none());
    assert!(reply_to_send(None, &without).is_none());
}

#[test]
fn a_stale_reply_channel_is_cleared_instead_of_used() {
    let key = SessionKey { agent_id: "a1".into(), role_name: "r1".into(), mode: Mode::Role };
    let mut repo = NexusRepo::new();
    repo.set_out_channel("a1", "r1", Some(out_channel()));
    assert!(!check_reply_channel(&mut repo, "a1", "r1", &out_channel()));
    assert!(repo.session_config::<OutChannelConfig>(&key).out_channel.is_none());

    let mut repo = NexusRepo::new();
    repo.add_channel(ChannelConfig {
        channel_id: "c1".into(),
        ws_url: "ws://h".into(),
        admins: vec![],
        bind_users: vec![ChannelUser { messenger_id: "web".into(), user_id: "bot".into() }],
        agent_id: "a1".into(),
        role_name: "r1".into(),
        enabled: true,
    });
    repo.set_out_channel("a1", "r1", Some(out_channel()));
    assert!(check_reply_channel(&mut repo, "a1", "r1", &out_channel()));
    assert!(repo.session_config::<OutChannelConfig>(&key).out_channel.is_some());
}
