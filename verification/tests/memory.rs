use kissbot_agent::batching::pack_events;
use kissbot_agent::json::Json;
use kissbot_agent::memory_reader::MemoryMsg;
use kissbot_agent::message::{
    extract_content, pack_batch, pack_memory_messages, Content, IncomingMessage, IncomingMessageEvent, Message, MessageContent,
};

fn msg(name: &str, content: &str, is_self: bool) -> MessageContent {
    MessageContent { user_name: name.to_string(), content: vec![content.to_string()], is_self }
}

fn mem(name: &str, content: &str, is_self: bool) -> MemoryMsg {
    MemoryMsg { user_name: name.to_string(), content: content.to_string(), time: "2026-08-07 10:00:00".into(), is_self }
}

fn is_user(m: &Message, text: &str) -> bool {
    matches!(m, Message::User { content } if content == text)
}

fn is_assistant(m: &Message, text: &str) -> bool {
    matches!(m, Message::Assistant { content: Json::Str(c), .. } if c == text)
}

#[test]
fn message_pack_memory_messages_alternates_merges_and_appends_empty_assistant() {
    let msgs = vec![
        msg("agent", "a0", true),
        msg("u1", "m0", false),
        msg("", "m1", false),
        msg("agent", "line1", true),
        msg("agent", "line2", true),
        msg("u3", "m2", false),
    ];
    let out = pack_memory_messages(&msgs);
    assert_eq!(out.len(), 4);
    assert!(is_user(&out[0], "u1: m0\nm1"));
    assert!(is_assistant(&out[1], "line1\nline2"));
    assert!(is_user(&out[2], "u3: m2"));
    assert!(is_assistant(&out[3], ""));
}

#[test]
fn message_pack_memory_messages_empty_or_all_self_returns_empty() {
    assert!(pack_memory_messages(&vec![]).is_empty());
    assert!(pack_memory_messages(&vec![msg("agent", "a", true), msg("agent", "b", true)]).is_empty());
}

#[test]
fn pack_memory_messages_skips_empty_content_records() {
    let empty = || MessageContent { user_name: "agent".to_string(), content: vec![], is_self: true };
    let msgs = vec![msg("u1", "hi", false), empty(), msg("u2", "there", false), msg("agent", "ok", true), empty()];
    let out = pack_memory_messages(&msgs);
    assert_eq!(out.len(), 2);
    assert!(is_user(&out[0], "u1: hi\nu2: there"));
    assert!(is_assistant(&out[1], "ok"));
}

#[test]
fn message_pack_memory_messages_single_user_appends_empty_assistant() {
    let out = pack_memory_messages(&vec![msg("u", "hi", false)]);
    assert_eq!(out.len(), 2);
    assert!(is_user(&out[0], "u: hi"));
    assert!(is_assistant(&out[1], ""));
}

#[test]
fn memory_reader_pack_memory_messages_alternates_merges_and_appends_empty_assistant() {
    let msgs = vec![
        mem("agent", "a0", true),
        mem("u1", "m0", false),
        mem("", "m1", false),
        mem("agent", "line1", true),
        mem("agent", "line2", true),
        mem("u3", "m2", false),
    ];
    let out = kissbot_agent::memory_reader::pack_memory_messages(&msgs);
    assert_eq!(out.len(), 4);
    assert!(is_user(&out[0], "u1: m0\nm1"));
    assert!(is_assistant(&out[1], "line1\nline2"));
    assert!(is_user(&out[2], "u3: m2"));
    assert!(is_assistant(&out[3], ""));
}

#[test]
fn memory_reader_pack_memory_messages_empty_or_all_self_returns_empty() {
    assert!(kissbot_agent::memory_reader::pack_memory_messages(&vec![]).is_empty());
    assert!(kissbot_agent::memory_reader::pack_memory_messages(&vec![mem("agent", "a", true), mem("agent", "b", true)]).is_empty());
}

#[test]
fn memory_reader_pack_memory_messages_single_user_appends_empty_assistant() {
    let out = kissbot_agent::memory_reader::pack_memory_messages(&vec![mem("u", "hi", false)]);
    assert_eq!(out.len(), 2);
    assert!(is_user(&out[0], "u: hi"));
    assert!(is_assistant(&out[1], ""));
}

#[test]
fn extract_content_collects_text_parts_and_is_self_flag() {
    let mc = extract_content(&"u".to_string(), 1, &Content::Text("hi".into()));
    assert_eq!(mc.content, vec!["hi".to_string()]);
    assert!(mc.is_self, "is_self>0 → true");
    let multi = Content::Multi(vec![
        Content::Text("a".into()),
        Content::ToolCall("k".into()),
        Content::Multi(vec![Content::Text("b".into())]),
    ]);
    let mc2 = extract_content(&"u".to_string(), 0, &multi);
    assert_eq!(mc2.content, vec!["a".to_string(), "b".to_string()]);
    assert!(!mc2.is_self, "is_self=0 → false");
    let mc3 = extract_content(&"u".to_string(), 0, &Content::ToolCall("k".into()));
    assert!(mc3.content.is_empty());
}

fn ev(name: &str, content: Content) -> IncomingMessageEvent {
    IncomingMessageEvent {
        recipient_user_id: "self".into(),
        incoming_message: IncomingMessage {
            msg_id: "m".into(),
            messenger_id: "web".into(),
            user_id: "u".into(),
            group_id: "g".into(),
            messenger_name: "".into(),
            user_name: name.into(),
            group_name: "".into(),
            content,
            time: "2026-08-07 10:00:00".into(),
        },
    }
}

#[test]
fn pack_batch_joins_user_lines_and_skips_non_text() {
    let events = vec![
        ev("u1", Content::Text("a".into())),
        ev("", Content::Text("b".into())),
        ev("u3", Content::ToolCall("k".into())),
        ev("u4", Content::Text("c".into())),
    ];
    let msg = pack_batch(&events);
    assert!(is_user(&msg, "u1: a\nb\nu4: c"), "非文本事件跳过，空 name 只留 text");
    let all_empty = vec![ev("u", Content::ToolCall("k".into()))];
    let msg2 = pack_batch(&all_empty);
    assert!(is_user(&msg2, ""));
}

#[test]
fn pack_events_builds_name_content_lines() {
    let events = vec![ev("u1", Content::Text("你好".into())), ev("u2", Content::Text("在吗".into()))];
    assert_eq!(pack_events(&events), "u1: 你好\nu2: 在吗");
}
