use kissbot_agent::batching::{pack_events, BatchDeadline};
use kissbot_agent::message::{Content, IncomingMessage, IncomingMessageEvent};

fn event(user: &str, text: &str) -> IncomingMessageEvent {
    IncomingMessageEvent {
        recipient_user_id: "self".into(),
        incoming_message: IncomingMessage {
            msg_id: "m".into(),
            messenger_id: "web".into(),
            user_id: "u".into(),
            group_id: "g".into(),
            messenger_name: "".into(),
            user_name: user.into(),
            group_name: "".into(),
            content: Content::Text(text.into()),
            time: "2026-08-07 10:00:00".into(),
        },
    }
}

#[test]
fn deadline_starts_empty_and_only_moves_later() {
    let mut d = BatchDeadline::new();
    assert_eq!(d.deadline, 0);
    d.set_deadline(1000);
    assert_eq!(d.deadline, 1000);
    // an earlier request does not pull the deadline in
    d.set_deadline(500);
    assert_eq!(d.deadline, 1000);
    // a later one pushes it back
    d.set_deadline(1500);
    assert_eq!(d.deadline, 1500);
}

#[test]
fn deadline_zero_request_becomes_one() {
    let mut d = BatchDeadline::new();
    d.set_deadline(0);
    assert_eq!(d.deadline, 1);
}

#[test]
fn take_due_flushes_only_after_deadline_or_when_forced() {
    let mut d = BatchDeadline::new();
    // nothing waits: no flush without force
    assert!(!d.take_due(false, 10_000));
    d.set_deadline(1000);
    assert!(!d.take_due(false, 999));
    assert_eq!(d.deadline, 1000);
    assert!(d.take_due(false, 1000));
    assert_eq!(d.deadline, 0);
    // a forced check always flushes
    assert!(d.take_due(true, 0));
    d.set_deadline(5000);
    assert!(d.take_due(true, 1));
    assert_eq!(d.deadline, 0);
}

#[test]
fn pack_events_joins_lines_in_order() {
    let evs = vec![event("alice", "hi"), event("", "plain"), event("bob", "yo")];
    assert_eq!(pack_events(&evs), "alice: hi\nplain\nbob: yo");
    assert_eq!(pack_events(&Vec::new()), "");
}
