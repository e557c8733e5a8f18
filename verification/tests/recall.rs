use kissbot_agent::json::Json;
use kissbot_agent::memory_reader::{
    extract_record_text, pack_memory_messages as pack_msgs, parse_records, recent_memory, select_recent, sort_by_time,
    MemoryMsg, StoredRecord,
};
use kissbot_agent::message::{pack_memory_messages, Content, Message, MessageContent};
use kissbot_agent::order::{text_less, text_less_eq};
use kissbot_agent::recent::{second_query, RecallStep, RecentRecords};

/// A time `secs` seconds before noon of a fixed day.
fn ago(secs: u32) -> String {
    let t = 12 * 3600 - secs;
    format!("2026-08-05 {:02}:{:02}:{:02}", t / 3600, (t / 60) % 60, t % 60)
}

#[derive(Clone)]
enum Body {
    Text(&'static str),
    Owned(String),
    Tool,
}

#[derive(Clone)]
struct R {
    time: String,
    sn: u64,
    user: String,
    is_self: bool,
    body: Body,
}

impl R {
    fn build(&self) -> StoredRecord {
        let content = match &self.body {
            Body::Text(t) => Content::Text(t.to_string()),
            Body::Owned(t) => Content::Text(t.clone()),
            Body::Tool => Content::ToolCall("k".into()),
        };
        StoredRecord {
            time: self.time.clone(),
            sn: self.sn,
            user_name: self.user.clone(),
            is_self: if self.is_self { 1 } else { 0 },
            content,
        }
    }
}

fn text(time: String, user: &str, t: String, is_self: bool) -> R {
    R { time, sn: 0, user: user.into(), is_self, body: Body::Owned(t) }
}

/// Numbers the records in order, as one store file does.
fn numbered(mut rs: Vec<R>) -> Vec<R> {
    for (i, r) in rs.iter_mut().enumerate() {
        r.sn = i as u64;
    }
    rs
}

fn one_group(rs: &[R]) -> Vec<Vec<StoredRecord>> {
    vec![rs.iter().map(|r| r.build()).collect()]
}

/// The recall as the agent runs it against a store holding `all`: the last `count` records,
/// then, when the first step asks for it, every record of the asked time range.
fn store_recall(all: &[R], count: usize, window_secs: u32) -> Vec<MessageContent> {
    let window_start = ago(window_secs);
    let mut sorted: Vec<&R> = all.iter().collect();
    sorted.sort_by(|a, b| a.time.cmp(&b.time).then(a.sn.cmp(&b.sn)));
    let tail: Vec<StoredRecord> = sorted[sorted.len().saturating_sub(count)..].iter().map(|r| r.build()).collect();
    let mut records = RecentRecords::new();
    records.absorb_groups(&vec![tail]);
    match second_query(&records, count, &window_start) {
        RecallStep::Done => {}
        RecallStep::Range { start, end } => {
            let g: Vec<StoredRecord> =
                all.iter().filter(|r| r.time >= start && r.time <= end).map(|r| r.build()).collect();
            records.absorb_groups(&vec![g]);
        }
    }
    records.into_contents()
}

fn texts(m: &MessageContent) -> Vec<String> {
    m.content.clone()
}

fn is_assistant_text(m: &Message, t: &str) -> bool {
    matches!(m, Message::Assistant { content: Json::Str(s), .. } if s == t)
}

fn is_user_text(m: &Message, t: &str) -> bool {
    matches!(m, Message::User { content } if content == t)
}

// ---------- reading the whole history, then choosing ----------

#[test]
fn read_recent_dense_keeps_order_and_same_time_group() {
    let rs = numbered((0..30).map(|i| text(ago(1800 - i * 60), "u", format!("m{}", i), false)).collect());
    let out = recent_memory(&one_group(&rs), 10, &ago(7200));
    assert_eq!(out.len(), 10);
    assert_eq!(out[0].content, "m20");
    assert!(out.windows(2).all(|w| w[0].time <= w[1].time), "时间正序");
}

#[test]
fn memory_reader_read_recent_sparse_extends_beyond_window() {
    let rs = numbered((0..15).map(|i| text(ago(600 - i * 20), "u", format!("m{}", i), false)).collect());
    let out = recent_memory(&one_group(&rs), 10, &ago(60));
    assert_eq!(out.len(), 10, "稀疏场景结果 = 最后 10 条（跨更早时间）");
    assert_eq!(out[0].content, "m5", "起点 = 第 6 条（最后 10 条最旧一条）");
}

#[test]
fn memory_reader_read_recent_empty_and_less_than_n() {
    assert!(recent_memory(&one_group(&[]), 10, &ago(7200)).is_empty(), "空数据返回空");
    let rs = numbered(vec![text(ago(60), "u", "a".into(), false), text(ago(120), "u", "b".into(), false)]);
    assert_eq!(recent_memory(&one_group(&rs), 10, &ago(7200)).len(), 2, "不足 N 条取全部");
    assert!(recent_memory(&one_group(&rs), 0, &ago(7200)).is_empty(), "count=0 返回空");
}

#[test]
fn memory_reader_read_recent_includes_same_time_group_beyond_n() {
    let (t0, t1, t2) = (ago(300), ago(200), ago(100));
    let mut rs = Vec::new();
    for i in 0..4 {
        rs.push(text(t0.clone(), "u", format!("m{}", i), false));
    }
    for i in 4..7 {
        rs.push(text(t1.clone(), "u", format!("m{}", i), false));
    }
    for i in 7..15 {
        rs.push(text(t2.clone(), "u", format!("m{}", i), false));
    }
    let out = recent_memory(&one_group(&numbered(rs)), 10, &ago(7200));
    assert_eq!(out.len(), 11, "T_N 同时间组横跨 N 边界时完整保留（含 start_idx 之前同时间记录）");
    assert_eq!(out[0].time, t1, "起点 = T_N 同时间组");
    assert_eq!(out[0].content, "m4", "start_idx 之前的同时间记录被 (3) 取回");
    assert!(out.windows(2).all(|w| w[0].time <= w[1].time), "时间正序");
}

#[test]
fn read_recent_skips_non_text_records_and_joins_multi() {
    let t = ago(60);
    let groups = vec![vec![
        StoredRecord { time: t.clone(), sn: 0, user_name: "u1".into(), is_self: 0, content: Content::Text("你好".into()) },
        StoredRecord {
            time: t.clone(),
            sn: 1,
            user_name: "u2".into(),
            is_self: 0,
            content: Content::Multi(vec![
                Content::Text("a".into()),
                Content::ToolCall("key1".into()),
                Content::Text("b".into()),
            ]),
        },
        StoredRecord { time: t.clone(), sn: 2, user_name: "u3".into(), is_self: 0, content: Content::ToolCall("key2".into()) },
    ]];
    let out = recent_memory(&groups, 10, &ago(7200));
    assert_eq!(out.len(), 2, "非文本记录跳过");
    assert_eq!(out[0].content, "你好");
    assert_eq!(out[1].content, "a\nb", "Multi 内容取 Text 子项拼接");
}

#[test]
fn memory_reader_read_recent_dedups_duplicate_records_by_time_sn_at_parse() {
    let t = ago(60);
    let rs = vec![
        R { time: ago(120), sn: 0, user: "u".into(), is_self: false, body: Body::Text("a") },
        R { time: t.clone(), sn: 1, user: "u".into(), is_self: false, body: Body::Text("hello") },
        R { time: t.clone(), sn: 1, user: "u".into(), is_self: false, body: Body::Text("hello") },
        R { time: t.clone(), sn: 2, user: "u".into(), is_self: false, body: Body::Text("hello") },
    ];
    let out = recent_memory(&one_group(&rs), 10, &ago(7200));
    assert_eq!(out.len(), 3, "同 (time, sn) 重复只保留一条，不同 sn 的同内容记录保留");
    assert_eq!(out.iter().filter(|m| m.content == "hello").count(), 2, "同秒同内容但 sn 不同 → 两条都保留");
}

#[test]
fn memory_reader_read_recent_extracts_is_self_and_packs_alternating() {
    let rs = numbered(vec![
        text(ago(300), "agent", "a0".into(), true),
        text(ago(280), "agent", "a1".into(), true),
        text(ago(260), "u1", "m0".into(), false),
        text(ago(240), "u2", "m1".into(), false),
        text(ago(220), "agent", "a2".into(), true),
        text(ago(200), "u3", "m2".into(), false),
    ]);
    let msgs = recent_memory(&one_group(&rs), 100, &ago(7200));
    let out = pack_msgs(&msgs);
    assert_eq!(out.len(), 4);
    assert!(is_user_text(&out[0], "u1: m0\nu2: m1"));
    assert!(is_assistant_text(&out[1], "a2"));
    assert!(is_user_text(&out[2], "u3: m2"));
    assert!(is_assistant_text(&out[3], ""));
}

#[test]
fn parse_keeps_reply_order_and_first_of_each_key() {
    let groups = vec![
        vec![
            StoredRecord { time: ago(10), sn: 3, user_name: "x".into(), is_self: 0, content: Content::Text("first".into()) },
            StoredRecord { time: ago(20), sn: 1, user_name: "y".into(), is_self: 1, content: Content::Text("older".into()) },
        ],
        vec![StoredRecord { time: ago(10), sn: 3, user_name: "z".into(), is_self: 0, content: Content::Text("again".into()) }],
    ];
    let out = parse_records(&groups);
    assert_eq!(out.len(), 2);
    assert_eq!(out[0].content, "first");
    assert_eq!(out[1].content, "older");
    assert!(out[1].is_self);
}

#[test]
fn sort_by_time_is_stable() {
    let m = |t: &str, c: &str| MemoryMsg { user_name: "u".into(), content: c.into(), time: t.into(), is_self: false };
    let msgs = vec![m("b", "1"), m("a", "2"), m("b", "3"), m("a", "4"), m("c", "5")];
    let out: Vec<String> = sort_by_time(&msgs).into_iter().map(|x| x.content).collect();
    assert_eq!(out, vec!["2", "4", "1", "3", "5"]);
}

#[test]
fn select_recent_window_rules() {
    let m = |t: &str, c: &str| MemoryMsg { user_name: "u".into(), content: c.into(), time: t.into(), is_self: false };
    let msgs = vec![m("t1", "a"), m("t2", "b"), m("t2", "c"), m("t3", "d")];
    // the oldest of the last two has time t2: its earlier twin is taken back
    let out: Vec<String> = select_recent(&msgs, 2, "t0").into_iter().map(|x| x.content).collect();
    assert_eq!(out, vec!["b", "c", "d"]);
    // a window starting after t2 keeps exactly the last two
    let out: Vec<String> = select_recent(&msgs, 2, "t9").into_iter().map(|x| x.content).collect();
    assert_eq!(out, vec!["c", "d"]);
}

#[test]
fn extract_record_text_reads_direct_texts_only() {
    let c = Content::Multi(vec![
        Content::Text("a".into()),
        Content::Multi(vec![Content::Text("inner".into())]),
        Content::Text("b".into()),
    ]);
    assert_eq!(extract_record_text(&c), "a\nb");
    assert_eq!(extract_record_text(&Content::GroupJoin), "");
}

#[test]
fn text_order_compares_by_character() {
    assert!(text_less("2026-08-05 09:59:59", "2026-08-05 10:00:00"));
    assert!(!text_less("b", "a"));
    assert!(text_less("ab", "abc"));
    assert!(!text_less("abc", "abc"));
    assert!(text_less_eq("abc", "abc"));
}

// ---------- two queries and their union ----------

#[test]
fn read_recent_window_covers_ln_returns_all_window_records() {
    let rs = numbered((0..30).map(|i| text(ago(1800 - i * 60), "u", format!("m{}", i), false)).collect());
    let out = store_recall(&rs, 10, 7200);
    assert_eq!(out.len(), 30, "窗口覆盖 ln 时结果 = 窗口内全部记录");
    assert_eq!(texts(&out[0]), vec!["m0".to_string()]);
    assert_eq!(texts(&out[29]), vec!["m29".to_string()]);
}

#[test]
fn memory_store_client_read_recent_sparse_extends_beyond_window() {
    let rs = numbered((0..15).map(|i| text(ago(600 - i * 20), "u", format!("m{}", i), false)).collect());
    let out = store_recall(&rs, 10, 60);
    assert_eq!(out.len(), 10, "稀疏场景结果 = 最后 10 条（跨更早时间）");
    assert_eq!(texts(&out[0]), vec!["m5".to_string()], "起点 = 第 6 条（最后 10 条最旧一条）");
}

#[test]
fn memory_store_client_read_recent_empty_and_less_than_n() {
    assert!(store_recall(&[], 10, 7200).is_empty(), "空数据返回空");
    let rs = numbered(vec![text(ago(60), "u", "a".into(), false), text(ago(120), "u", "b".into(), false)]);
    assert_eq!(store_recall(&rs, 10, 7200).len(), 2, "不足 N 条取全部");
    assert!(store_recall(&rs, 0, 7200).is_empty(), "count=0 返回空");
}

#[test]
fn memory_store_client_read_recent_includes_same_time_group_beyond_n() {
    let (t0, t1, t2) = (ago(300), ago(200), ago(100));
    let mut rs = Vec::new();
    for i in 0..4 {
        rs.push(text(t0.clone(), "u", format!("m{}", i), false));
    }
    for i in 4..7 {
        rs.push(text(t1.clone(), "u", format!("m{}", i), false));
    }
    for i in 7..15 {
        rs.push(text(t2.clone(), "u", format!("m{}", i), false));
    }
    let out = store_recall(&numbered(rs), 10, 250);
    assert_eq!(out.len(), 11, "ln 同时间组完整保留（含 start_idx 之前同时间记录）");
    assert!(out.iter().any(|m| texts(m) == vec!["m4".to_string()]), "start_idx 之前的同时间记录被并集取回");
}

#[test]
fn read_recent_ln_group_beyond_n_when_cutoff_after_ln() {
    let (t0, t1, t2) = (ago(300), ago(200), ago(100));
    let mut rs = Vec::new();
    for i in 0..2 {
        rs.push(text(t0.clone(), "u", format!("m{}", i), false));
    }
    for i in 2..5 {
        rs.push(text(t1.clone(), "u", format!("m{}", i), false));
    }
    for i in 5..13 {
        rs.push(text(t2.clone(), "u", format!("m{}", i), false));
    }
    let out = store_recall(&numbered(rs), 10, 150);
    assert_eq!(out.len(), 11, "cutoff > ln 时 [ln, ln] 取回边界前同时间记录（m2）");
    assert!(out.iter().any(|m| texts(m) == vec!["m2".to_string()]), "m2 在最后 N 边界之前、与 ln 同时间 → 被 [ln, ln] 取回");
}

#[test]
fn read_recent_keeps_non_text_as_empty_content() {
    let t = ago(60);
    let mut records = RecentRecords::new();
    records.absorb_groups(&vec![vec![
        StoredRecord { time: t.clone(), sn: 0, user_name: "u1".into(), is_self: 0, content: Content::Text("你好".into()) },
        StoredRecord {
            time: t.clone(),
            sn: 1,
            user_name: "u2".into(),
            is_self: 0,
            content: Content::Multi(vec![
                Content::Text("a".into()),
                Content::ToolCall("key1".into()),
                Content::Text("b".into()),
            ]),
        },
        StoredRecord { time: t.clone(), sn: 2, user_name: "u3".into(), is_self: 0, content: Content::ToolCall("key2".into()) },
    ]]);
    assert!(matches!(second_query(&records, 10, &ago(7200)), RecallStep::Done));
    let out = records.into_contents();
    assert_eq!(out.len(), 3, "非文本记录保留在结果中（空 content）");
    assert_eq!(texts(&out[0]), vec!["你好".to_string()]);
    assert_eq!(texts(&out[1]), vec!["a".to_string(), "b".to_string()], "Multi 内容取 Text 子项拼接");
    assert!(out[2].content.is_empty(), "ToolCall 记录 content 为空 Vec");
    assert_eq!(pack_memory_messages(&out).len(), 2, "pack 跳过空 content 记录");
}

#[test]
fn memory_store_client_read_recent_dedups_duplicate_records_by_time_sn_at_parse() {
    let t = ago(60);
    let rs = vec![
        R { time: ago(120), sn: 0, user: "u".into(), is_self: false, body: Body::Text("a") },
        R { time: t.clone(), sn: 1, user: "u".into(), is_self: false, body: Body::Text("hello") },
        R { time: t.clone(), sn: 1, user: "u".into(), is_self: false, body: Body::Text("hello") },
        R { time: t.clone(), sn: 2, user: "u".into(), is_self: false, body: Body::Text("hello") },
    ];
    let mut records = RecentRecords::new();
    records.absorb_groups(&one_group(&rs));
    let out = records.into_contents();
    assert_eq!(out.len(), 3, "同 (time, sn) 重复只保留一条，不同 sn 的同内容记录保留");
    assert_eq!(out.iter().filter(|m| texts(m) == vec!["hello".to_string()]).count(), 2, "同秒同内容但 sn 不同 → 两条都保留");
}

#[test]
fn read_recent_unions_both_queries_and_dedups() {
    let rs = numbered((0..12).map(|i| text(ago(1200 - i * 60), "u", format!("m{}", i), false)).collect());
    let out = store_recall(&rs, 10, 1800);
    assert_eq!(out.len(), 12, "并集去重后 = 全部 12 条（m2 只保留一条）");
    assert_eq!(texts(&out[0]), vec!["m0".to_string()]);
    assert_eq!(texts(&out[11]), vec!["m11".to_string()]);
}

#[test]
fn read_recent_map_len_counts_non_text_records() {
    let rs = numbered(
        (0..12)
            .map(|i| {
                let t = ago(1200 - i * 60);
                if i == 5 {
                    R { time: t, sn: 0, user: "u".into(), is_self: false, body: Body::Tool }
                } else {
                    text(t, "u", format!("m{}", i), false)
                }
            })
            .collect(),
    );
    let out = store_recall(&rs, 10, 1800);
    assert_eq!(out.len(), 12, "map.len()=10=count 不早退，Query2 补 m0,m1 → 12 条（含空 content 的 m5）");
    assert!(out.iter().any(|m| m.content.is_empty()), "非文本 m5 以空 content 保留在结果中");
    assert_eq!(texts(&out[0]), vec!["m0".to_string()]);
    assert_eq!(texts(&out[11]), vec!["m11".to_string()]);
}

#[test]
fn read_recent_recursively_collects_nested_multi_text() {
    let mut records = RecentRecords::new();
    records.absorb_groups(&vec![vec![StoredRecord {
        time: ago(60),
        sn: 0,
        user_name: "u1".into(),
        is_self: 0,
        content: Content::Multi(vec![
            Content::Text("a".into()),
            Content::Multi(vec![Content::Text("b".into()), Content::ToolCall("k".into()), Content::Text("c".into())]),
            Content::Text("d".into()),
        ]),
    }]]);
    let out = records.into_contents();
    assert_eq!(out.len(), 1);
    assert_eq!(
        texts(&out[0]),
        vec!["a".to_string(), "b".to_string(), "c".to_string(), "d".to_string()],
        "嵌套 Multi 递归收集全部 Text 段，非文本子项跳过"
    );
}

#[test]
fn memory_store_client_read_recent_extracts_is_self_and_packs_alternating() {
    let rs = numbered(vec![
        text(ago(300), "agent", "a0".into(), true),
        text(ago(280), "agent", "a1".into(), true),
        text(ago(260), "u1", "m0".into(), false),
        text(ago(240), "u2", "m1".into(), false),
        text(ago(220), "agent", "a2".into(), true),
        text(ago(200), "u3", "m2".into(), false),
    ]);
    let msgs = store_recall(&rs, 100, 7200);
    let out = pack_memory_messages(&msgs);
    assert_eq!(out.len(), 4);
    assert!(is_user_text(&out[0], "u1: m0\nu2: m1"));
    assert!(is_assistant_text(&out[1], "a2"));
    assert!(is_user_text(&out[2], "u3: m2"));
    assert!(is_assistant_text(&out[3], ""));
}

#[test]
fn second_query_plans_range_from_earlier_of_window_and_oldest() {
    let rs = numbered((0..3).map(|i| text(ago(300 - i * 10), "u", format!("m{}", i), false)).collect());
    let mut records = RecentRecords::new();
    records.absorb_groups(&one_group(&rs));
    assert_eq!(records.len(), 3);
    match second_query(&records, 3, &ago(1000)) {
        RecallStep::Range { start, end } => {
            assert_eq!(start, ago(1000));
            assert_eq!(end, ago(300));
        }
        RecallStep::Done => panic!("a full first reply asks for the range"),
    }
    match second_query(&records, 3, &ago(10)) {
        RecallStep::Range { start, end } => {
            assert_eq!(start, ago(300));
            assert_eq!(end, ago(300));
        }
        RecallStep::Done => panic!("a full first reply asks for the range"),
    }
    assert!(matches!(second_query(&records, 4, &ago(10)), RecallStep::Done));
    // taking the same records in again changes nothing
    records.absorb_groups(&one_group(&rs));
    assert_eq!(records.len(), 3);
}
