use daily_assistant::clock::ClockTime;
use daily_assistant::config::ConfigUpdate;
use daily_assistant::feishu::{
    send_result, text_message_body, token_result, user_id_result, user_lookup_body, DeliveryAction,
    DeliveryStage, FeishuClient, HttpAnswer, MESSAGE_URL, TOKEN_URL, USER_ID_URL,
};
use daily_assistant::json::{lookup_string, Lookup};
use daily_assistant::model::AppConfig;
use daily_assistant::scheduler::{
    scheduler_step, should_fire, SchedulerAction, SchedulerEvent, SchedulerState, COOLDOWN_SECS,
    POLL_INTERVAL_SECS,
};

fn ok(body: &str) -> Result<HttpAnswer, String> {
    Ok(HttpAnswer { status: 200, status_line: "200 OK".to_string(), body: body.to_string() })
}

fn client() -> FeishuClient {
    FeishuClient::new("cli_app".to_string(), "SECRET-REDACTED".to_string())
}

#[test]
fn unknown_recipient_fails_after_authentication() {
    let c = client();
    let (stage, action) = c.start();
    assert!(matches!(stage, DeliveryStage::Authenticating));
    match action {
        DeliveryAction::Send(p) => {
            assert_eq!(p.url, TOKEN_URL);
            assert!(p.token.is_none());
            assert_eq!(p.body, "{\"app_id\":\"cli_app\",\"app_secret\":\"SECRET-REDACTED\"}");
        }
        DeliveryAction::Finish(_) => panic!("delivery ended before authenticating"),
    }
    let (stage, action) = c.advance("nobody@example.com", "report", stage, ok(r#"{"code":0,"tenant_access_token":"t-123"}"#));
    assert!(matches!(stage, DeliveryStage::Resolving { ref token } if token == "t-123"));
    match action {
        DeliveryAction::Send(p) => {
            assert_eq!(p.url, USER_ID_URL);
            assert_eq!(p.token.as_deref(), Some("t-123"));
        }
        DeliveryAction::Finish(_) => panic!("authentication did not go on to the lookup"),
    }
    let (stage, action) = c.advance("nobody@example.com", "report", stage, ok(r#"{"code":0,"data":{"user_list":[{"email":"nobody@example.com"}]}}"#));
    let expected = "User not found for email: nobody@example.com".to_string();
    assert!(matches!(stage, DeliveryStage::Failed { ref reason } if *reason == expected));
    assert!(matches!(action, DeliveryAction::Finish(Err(ref e)) if *e == expected));
}

#[test]
fn delivery_in_three_steps() {
    let c = client();
    let (stage, _) = c.start();
    let (stage, _) = c.advance("a@b.c", "Done today", stage, ok(r#"{"tenant_access_token":"tok"}"#));
    let (stage, action) = c.advance("a@b.c", "Done today", stage, ok(r#"{"data":{"user_list":[{"user_id":"ou_9"}]}}"#));
    assert!(matches!(stage, DeliveryStage::Sending));
    match action {
        DeliveryAction::Send(p) => {
            assert_eq!(p.url, MESSAGE_URL);
            assert_eq!(p.token.as_deref(), Some("tok"));
            assert_eq!(p.body, "{\"content\":\"{\\\"text\\\":\\\"Done today\\\"}\",\"msg_type\":\"text\",\"receive_id\":\"ou_9\"}");
        }
        DeliveryAction::Finish(_) => panic!("lookup did not go on to sending"),
    }
    let (stage, action) = c.advance("a@b.c", "Done today", stage, ok("{}"));
    assert!(matches!(stage, DeliveryStage::Delivered));
    assert!(matches!(action, DeliveryAction::Finish(Ok(()))));
}

#[test]
fn rejected_message_fails_with_status_and_body() {
    let c = client();
    let answer = Ok(HttpAnswer { status: 400, status_line: "400 Bad Request".to_string(), body: "bad".to_string() });
    let (stage, action) = c.advance("a@b.c", "r", DeliveryStage::Sending, answer);
    assert!(matches!(stage, DeliveryStage::Failed { ref reason } if reason == "Send failed: 400 Bad Request - bad"));
    assert!(matches!(action, DeliveryAction::Finish(Err(_))));
}

#[test]
fn unreachable_platform_fails_the_step() {
    let c = client();
    let (stage, action) = c.advance("a@b.c", "r", DeliveryStage::Authenticating, Err("connection refused".to_string()));
    assert!(matches!(stage, DeliveryStage::Failed { ref reason } if reason == "connection refused"));
    assert!(matches!(action, DeliveryAction::Finish(Err(ref e)) if e == "connection refused"));
}

#[test]
fn authentication_without_token_fails() {
    let c = client();
    let (stage, _) = c.advance("a@b.c", "r", DeliveryStage::Authenticating, ok(r#"{"code":10003,"msg":"invalid"}"#));
    assert!(matches!(stage, DeliveryStage::Failed { ref reason } if reason.starts_with("Auth Failed: ")));
}

#[test]
fn ended_delivery_stays_ended() {
    let c = client();
    let (stage, action) = c.advance("a@b.c", "r", DeliveryStage::Delivered, ok("{}"));
    assert!(matches!(stage, DeliveryStage::Delivered));
    assert!(matches!(action, DeliveryAction::Finish(Ok(()))));
}

#[test]
fn step_results() {
    assert_eq!(token_result(Lookup::Found("t".to_string())), Ok("t".to_string()));
    assert_eq!(token_result(Lookup::Absent("{}".to_string())), Err("Auth Failed: {}".to_string()));
    assert_eq!(token_result(Lookup::Unreadable("eof".to_string())), Err("eof".to_string()));
    assert_eq!(user_id_result(Lookup::Absent("x".to_string()), "e@x"), Err("User not found for email: e@x".to_string()));
    assert_eq!(user_id_result(Lookup::Found("ou".to_string()), "e@x"), Ok("ou".to_string()));
    let fine = HttpAnswer { status: 204, status_line: "204 No Content".to_string(), body: String::new() };
    assert_eq!(send_result(&fine), Ok(()));
}

#[test]
fn request_bodies() {
    assert_eq!(user_lookup_body("a\"b@c"), "{\"emails\":[\"a\\\"b@c\"]}");
    assert_eq!(text_message_body("ou_1", "hi"), "{\"content\":\"{\\\"text\\\":\\\"hi\\\"}\",\"msg_type\":\"text\",\"receive_id\":\"ou_1\"}");
}

#[test]
fn lookups() {
    assert!(matches!(lookup_string(r#"{"a":{"b":["x","y"]}}"#, "/a/b/1"), Lookup::Found(ref s) if s == "y"));
    assert!(matches!(lookup_string(r#"{"a":1}"#, "/a"), Lookup::Absent(_)));
    assert!(matches!(lookup_string("not json", "/a"), Lookup::Unreadable(_)));
}

fn scheduled(time: Option<&str>, enabled: bool) -> AppConfig {
    let mut c = AppConfig::default();
    c.schedule_time = time.map(|t| t.to_string());
    c.feishu_enabled = enabled;
    c
}

#[test]
fn fires_only_at_the_configured_minute() {
    let now = ClockTime::new(9, 5).unwrap();
    assert!(should_fire(&scheduled(Some("09:05"), true), &now));
    assert!(!should_fire(&scheduled(Some("09:06"), true), &now));
    assert!(!should_fire(&scheduled(Some("9:05"), true), &now));
    assert!(!should_fire(&scheduled(Some("09:05"), false), &now));
    assert!(!should_fire(&scheduled(None, true), &now));
}

#[test]
fn scheduler_transitions() {
    let config = scheduled(Some("18:00"), true);
    let at = |h: u8, m: u8| SchedulerEvent::Woke { now: ClockTime::new(h, m).unwrap() };
    assert_eq!(scheduler_step(SchedulerState::Idle, &config, at(17, 59)), (SchedulerState::Idle, SchedulerAction::Sleep(60)));
    assert_eq!(scheduler_step(SchedulerState::Idle, &config, at(18, 0)), (SchedulerState::Firing, SchedulerAction::RunJob));
    assert_eq!(scheduler_step(SchedulerState::Firing, &config, SchedulerEvent::JobDone), (SchedulerState::Idle, SchedulerAction::Sleep(120)));
    assert_eq!(scheduler_step(SchedulerState::Firing, &config, at(18, 0)), (SchedulerState::Firing, SchedulerAction::Sleep(60)));
    assert_eq!(POLL_INTERVAL_SECS + COOLDOWN_SECS, 120);
}

#[test]
fn clock_text() {
    assert_eq!(ClockTime::new(7, 5).unwrap().format(), "07:05");
    assert_eq!(ClockTime::new(23, 59).unwrap().format(), "23:59");
    assert_eq!(ClockTime::new(0, 0).unwrap().format(), "00:00");
    assert!(ClockTime::new(24, 0).is_none());
    assert!(ClockTime::new(1, 60).is_none());
    assert_eq!(ClockTime::parse("23:59"), ClockTime::new(23, 59));
    assert_eq!(ClockTime::parse("24:00"), None);
    assert_eq!(ClockTime::parse("12:60"), None);
    assert_eq!(ClockTime::parse("7:05"), None);
    assert_eq!(ClockTime::parse("07-05"), None);
}

fn no_change() -> ConfigUpdate {
    ConfigUpdate {
        api_key: None,
        add_repo: None,
        deep_analysis: None,
        feishu_app_id: None,
        feishu_app_secret: None,
        feishu_target: None,
        schedule: None,
    }
}

#[test]
fn repositories_are_added_once() {
    let mut c = AppConfig::default();
    let add = |p: &str| ConfigUpdate { add_repo: Some(p.to_string()), ..no_change() };
    assert_eq!(c.apply_update(add("/work/api")), Ok(true));
    assert_eq!(c.apply_update(add("/work/api")), Ok(false));
    assert_eq!(c.apply_update(add("/work/web")), Ok(true));
    assert_eq!(c.git_paths, vec!["/work/api", "/work/web"]);
    assert!(c.has_repo("/work/web"));
    assert!(!c.has_repo("/work"));
}

#[test]
fn schedule_enables_delivery() {
    let mut c = AppConfig::default();
    let u = ConfigUpdate { schedule: Some("18:30".to_string()), api_key: Some("k".to_string()), ..no_change() };
    assert_eq!(c.apply_update(u), Ok(true));
    assert!(c.feishu_enabled);
    assert_eq!(c.schedule_time.as_deref(), Some("18:30"));
    assert_eq!(c.api_key, "k");
    assert_eq!(c.apply_update(no_change()), Ok(false));
}

#[test]
fn malformed_schedule_is_refused() {
    let mut c = AppConfig::default();
    let u = ConfigUpdate { schedule: Some("25:00".to_string()), api_key: Some("k".to_string()), ..no_change() };
    assert_eq!(c.apply_update(u), Err("Invalid schedule time (expected HH:MM): 25:00".to_string()));
    assert!(!c.feishu_enabled);
    assert!(c.api_key.is_empty());
}

#[test]
fn waking_reads_the_clock() {
    let off = scheduled(Some("09:00"), false);
    assert_eq!(daily_assistant::scheduler::wake(SchedulerState::Idle, &off), (SchedulerState::Idle, SchedulerAction::Sleep(60)));
    let on = scheduled(Some("09:00"), true);
    assert_eq!(daily_assistant::scheduler::wake(SchedulerState::Firing, &on), (SchedulerState::Firing, SchedulerAction::Sleep(60)));
}
