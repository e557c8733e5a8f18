use std::collections::HashSet;

use kissbot_agent::types::{role_mode, ChannelUser, Mode, SessionKey};

#[test]
fn session_key_hash_eq_by_value() {
    let a = SessionKey { agent_id: "a1".into(), role_name: "r1".into(), mode: Mode::Role };
    let b = SessionKey { agent_id: "a1".into(), role_name: "r1".into(), mode: Mode::Role };
    let c = SessionKey { agent_id: "a1".into(), role_name: "r1".into(), mode: Mode::Event("e1".into()) };
    let mut set = HashSet::new();
    set.insert(a.clone());
    assert!(set.contains(&b), "等值 SessionKey 应命中 HashSet");
    assert!(!set.contains(&c), "不同 mode 不应命中");
}

#[test]
fn role_mode_encodes_event_only() {
    assert_eq!(role_mode("dev", &Mode::Role), "dev");
    assert_eq!(role_mode("dev", &Mode::Event("e1".into())), "dev-e1");
}

#[test]
fn repo_channel_user_hash_eq_by_value() {
    let a = ChannelUser { messenger_id: "m1".into(), user_id: "u1".into() };
    let b = ChannelUser { messenger_id: "m1".into(), user_id: "u1".into() };
    let mut set = HashSet::new();
    set.insert(a.clone());
    assert!(set.contains(&b), "等值 ChannelUser 应命中 HashSet");
}

#[test]
fn config_manager_channel_user_hash_eq_by_value() {
    let a = ChannelUser { messenger_id: "web".into(), user_id: "u1".into() };
    let b = ChannelUser { messenger_id: "web".into(), user_id: "u1".into() };
    let mut set = HashSet::new();
    set.insert(a);
    assert!(set.contains(&b), "等值 ChannelUser 应命中 HashSet");
}

#[test]
fn same_as_compares_by_value() {
    let a = SessionKey { agent_id: "a".into(), role_name: "r".into(), mode: Mode::Event("e".into()) };
    let b = SessionKey { agent_id: "a".into(), role_name: "r".into(), mode: Mode::Event("e".into()) };
    let c = SessionKey { agent_id: "a".into(), role_name: "r".into(), mode: Mode::Role };
    assert!(a.same_as(&b));
    assert!(!a.same_as(&c));
}
