use chat_bridge::cache::Cache;
use chat_bridge::database::{order_recent, Conversation};
use chat_bridge::error::Error;
use chat_bridge::handlers::{dedup_key, Action, Event, Pipeline, Stage, WeChatMessage, DEDUP_TTL};
use chat_bridge::settings::ChatGptConfig;

fn config(model: &str) -> ChatGptConfig {
    ChatGptConfig { api: String::new(), model: model.to_string() }
}

fn inbound(msg_id: i64, text: &str) -> WeChatMessage {
    WeChatMessage {
        to_user_name: "A".to_string(),
        from_user_name: "B".to_string(),
        create_time: 0,
        msg_type: "text".to_string(),
        content: text.to_string(),
        msg_id,
    }
}

fn turn(i: usize) -> Conversation {
    Conversation { req_message: format!("q{}", i), resp_message: format!("a{}", i) }
}

#[test]
fn dedup_key_formats_id() {
    assert_eq!(dedup_key(42), "MSGID_42");
    assert_eq!(dedup_key(0), "MSGID_0");
    assert_eq!(dedup_key(-7), "MSGID_-7");
    assert_eq!(dedup_key(i64::MIN), "MSGID_-9223372036854775808");
}

#[test]
fn second_delivery_within_window_is_repeat() {
    let mut cache = Cache::new();
    let cfg = config("gpt-3.5-turbo");
    let (a, act_a) = Pipeline::start(&mut cache, &cfg, inbound(42, "hi"), 1_000).unwrap();
    assert!(matches!(a.stage, Stage::AwaitHistory));
    assert!(matches!(act_a, Action::FetchHistory { limit: 10, .. }));
    // The first run's upstream call takes 500 ms; the retry arrives 10 ms in.
    let (b, act_b) = Pipeline::start(&mut cache, &cfg, inbound(42, "hi"), 1_010).unwrap();
    assert!(matches!(b.stage, Stage::AwaitPersisted));
    assert!(matches!(act_b, Action::LookupPersisted { msg_id: 42 }));
    let mut b = b;
    let next = b.step(Event::Persisted(Ok("hello".to_string())));
    assert!(!matches!(next, Action::CallUpstream { .. }));
    assert!(matches!(b.stage, Stage::Done));
}

#[test]
fn delivery_after_window_is_fresh() {
    let mut cache = Cache::new();
    let cfg = config("gpt-3.5-turbo");
    Pipeline::start(&mut cache, &cfg, inbound(7, "hi"), 0).unwrap();
    let (p, _) = Pipeline::start(&mut cache, &cfg, inbound(7, "hi"), DEDUP_TTL).unwrap();
    assert!(matches!(p.stage, Stage::AwaitHistory));
}

#[test]
fn fresh_run_round_trip_reply() {
    let mut cache = Cache::new();
    let cfg = config("text-davinci-003");
    let (mut p, act) = Pipeline::start(&mut cache, &cfg, inbound(42, "hi"), 0).unwrap();
    match act {
        Action::FetchHistory { user_id, subscription_id, limit } => {
            assert_eq!(user_id, "B");
            assert_eq!(subscription_id, "A");
            assert_eq!(limit, 10);
        }
        _ => panic!("expected a history fetch"),
    }
    match p.step(Event::History(Ok(vec![turn(1)]))) {
        Action::CallUpstream { context, text, .. } => {
            assert_eq!(context.len(), 1);
            assert_eq!(text, "hi");
        }
        _ => panic!("expected an upstream call"),
    }
    match p.step(Event::Reply(Ok("hello".to_string()))) {
        Action::Persist { msg_id, user_id, subscription_id, request, response } => {
            assert_eq!(msg_id, 42);
            assert_eq!(user_id, "B");
            assert_eq!(subscription_id, "A");
            assert_eq!(request, "hi");
            assert_eq!(response, "hello");
        }
        _ => panic!("expected a persist"),
    }
    match p.step(Event::Stored(Ok(()))) {
        Action::Respond { to_user_name, from_user_name, content } => {
            assert_eq!(to_user_name, "B");
            assert_eq!(from_user_name, "A");
            assert_eq!(content, "hello");
        }
        _ => panic!("expected a reply"),
    }
    assert!(matches!(p.stage, Stage::Done));
}

#[test]
fn unknown_model_fails_fast() {
    let mut cache = Cache::new();
    let cfg = config("not-a-real-model");
    for id in 0..3 {
        let r = Pipeline::start(&mut cache, &cfg, inbound(id, "hi"), 0);
        assert!(matches!(r, Err(Error::UnsupportedModel)));
    }
    assert!(!cache.contains_key("MSGID_0"));
}

#[test]
fn failures_end_the_run() {
    let mut cache = Cache::new();
    let cfg = config("gpt-3.5-turbo");
    let (mut p, _) = Pipeline::start(&mut cache, &cfg, inbound(1, "hi"), 0).unwrap();
    let act = p.step(Event::History(Err(Error::DatabaseError("down".to_string()))));
    assert!(matches!(act, Action::Fail(Error::DatabaseError(_))));
    assert!(matches!(p.stage, Stage::Failed));
    assert!(!p.accepts(&Event::Reply(Ok(String::new()))));
}

#[test]
fn repeat_without_record_fails_not_found() {
    let mut cache = Cache::new();
    let cfg = config("gpt-3.5-turbo");
    Pipeline::start(&mut cache, &cfg, inbound(3, "hi"), 0).unwrap();
    let (mut p, _) = Pipeline::start(&mut cache, &cfg, inbound(3, "hi"), 5).unwrap();
    let act = p.step(Event::Persisted(Err(Error::NotFound)));
    assert!(matches!(act, Action::Fail(Error::NotFound)));
}

#[test]
fn history_keeps_latest_ten_oldest_first() {
    // The store lists rows newest first: turn 15 down to turn 1.
    let rows: Vec<Conversation> = (1..=15).rev().map(turn).collect();
    let ctx = order_recent(&rows, 10);
    assert_eq!(ctx.len(), 10);
    let reqs: Vec<String> = ctx.iter().map(|c| c.req_message.clone()).collect();
    let expected: Vec<String> = (6..=15).map(|i| format!("q{}", i)).collect();
    assert_eq!(reqs, expected);
}

#[test]
fn history_shorter_than_limit() {
    let rows: Vec<Conversation> = (1..=3).rev().map(turn).collect();
    let ctx = order_recent(&rows, 10);
    let reqs: Vec<String> = ctx.iter().map(|c| c.req_message.clone()).collect();
    assert_eq!(reqs, vec!["q1", "q2", "q3"]);
    assert!(order_recent(&Vec::new(), 10).is_empty());
}
