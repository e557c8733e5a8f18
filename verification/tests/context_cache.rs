use kissbot_agent::context_cache::{encode_session_key, join_path, sanitize_recovered, ContextCache, HistoryArchive};
use kissbot_agent::json::Json;
use kissbot_agent::message::Message;
use kissbot_agent::types::{Mode, SessionKey};

fn key() -> SessionKey {
    SessionKey { agent_id: "a1".into(), role_name: "r1".into(), mode: Mode::Event("e1".into()) }
}

#[test]
fn encode_session_key_distinguishes() {
    let k1 = key();
    let k2 = SessionKey { agent_id: "a1".into(), role_name: "r2".into(), mode: Mode::Role };
    let k3 = SessionKey { agent_id: "a1".into(), role_name: "r1".into(), mode: Mode::Event("e2".into()) };
    assert_ne!(encode_session_key(&k1), encode_session_key(&k2), "不同 role 不同编码");
    assert_ne!(encode_session_key(&k1), encode_session_key(&k3), "不同 event 不同编码");
    let enc = encode_session_key(&key());
    assert!(!enc.contains('|') && !enc.contains('/'), "编码应文件名安全");
}

#[test]
fn encode_session_key_is_hex_of_utf8_text() {
    let k = SessionKey { agent_id: "a".into(), role_name: "".into(), mode: Mode::Role };
    // "a||role"
    assert_eq!(encode_session_key(&k), "617c7c726f6c65");
    let e = SessionKey { agent_id: "智".into(), role_name: "r".into(), mode: Mode::Event("x".into()) };
    // "智|r|event:x"; 智 = e6 99 ba
    assert_eq!(encode_session_key(&e), "e699ba7c727c6576656e743a78");
}

#[test]
fn cache_and_archive_paths() {
    let cache = ContextCache::new("/data");
    assert_eq!(cache.dir, "/data/context");
    let k = SessionKey { agent_id: "a".into(), role_name: "".into(), mode: Mode::Role };
    assert_eq!(cache.path_for(&k), "/data/context/617c7c726f6c65.jsonl");
    let archive = HistoryArchive::new("/data/");
    assert_eq!(archive.dir, "/data/context-history");
    assert_eq!(archive.path_for(&k, "2026-01-02-030405"), "/data/context-history/617c7c726f6c65-2026-01-02-030405.jsonl");
    assert_eq!(join_path("", "x"), "x");
}

fn user(t: &str) -> Message {
    Message::User { content: t.into() }
}

fn tool(id: &str) -> Message {
    Message::Tool { tool_call_id: id.into(), content: "r".into() }
}

fn assistant_calls() -> Message {
    Message::Assistant {
        content: Json::Null,
        reasoning_content: Json::Null,
        tool_calls: Json::Array(vec![Json::Str("c".into())]),
    }
}

#[test]
fn read_all_sanitizes_dangling_tool_turn() {
    let msgs = vec![tool("t0"), tool("t1"), user("hi"), assistant_calls()];
    let out = sanitize_recovered(msgs);
    assert_eq!(out.len(), 1, "悬挂 assistant 与开头 Tool 均丢弃");
    assert!(matches!(&out[0], Message::User { content } if content == "hi"));
}

#[test]
fn sanitize_keeps_complete_turns() {
    let msgs = vec![user("hi"), assistant_calls(), tool("c"), Message::Assistant {
        content: Json::Str("ok".into()),
        reasoning_content: Json::Null,
        tool_calls: Json::Null,
    }];
    let out = sanitize_recovered(msgs);
    assert_eq!(out.len(), 4);
}

#[test]
fn an_appended_consistent_context_reads_back_whole() {
    let before = vec![user("hi"), Message::Assistant { content: Json::Str("hello".into()), reasoning_content: Json::Str("because".into()), tool_calls: Json::Null }];
    let appended = vec![user("again"), assistant_calls(), tool("c"), Message::Assistant {
        content: Json::Str("done".into()),
        reasoning_content: Json::Null,
        tool_calls: Json::Null,
    }];
    let mut all: Vec<Message> = before.iter().map(|m| m.duplicate()).collect();
    all.extend(appended.iter().map(|m| m.duplicate()));
    let expected = format!("{:?}", all);
    let out = sanitize_recovered(all);
    assert_eq!(format!("{:?}", out), expected);
}

#[test]
fn session_key_encodings_differ_for_keys_without_bars() {
    let keys = [
        SessionKey { agent_id: "ab".into(), role_name: "c".into(), mode: Mode::Role },
        SessionKey { agent_id: "a".into(), role_name: "bc".into(), mode: Mode::Role },
        SessionKey { agent_id: "a".into(), role_name: "bc".into(), mode: Mode::Event("role".into()) },
        SessionKey { agent_id: "a".into(), role_name: "bc".into(), mode: Mode::Event("".into()) },
    ];
    for (i, a) in keys.iter().enumerate() {
        for (j, b) in keys.iter().enumerate() {
            assert_eq!(encode_session_key(a) == encode_session_key(b), i == j);
        }
    }
    // with a '|' inside a name two keys can share a text, and so a cache file
    let k1 = SessionKey { agent_id: "a|b".into(), role_name: "c".into(), mode: Mode::Role };
    let k2 = SessionKey { agent_id: "a".into(), role_name: "b|c".into(), mode: Mode::Role };
    assert_eq!(encode_session_key(&k1), encode_session_key(&k2));
}
