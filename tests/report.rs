use daily_assistant::ai::{completion_result, read_completion, AiRequest, DEFAULT_BASE_URL};
use daily_assistant::json::Reply;
use daily_assistant::job::{plan_delivery, plan_job, DeliveryPlan, JobPlan};
use daily_assistant::model::{AppConfig, GitCommit, LogItem, DEFAULT_CUSTOM_RULES, DEFAULT_REPORT_TEMPLATE};
use daily_assistant::prompt::generate_prompt_logic;
use daily_assistant::text::same_text;

const ANALYSIS: &str = "Provide a comprehensive summary, 3 improvements, and 1 key knowledge point. If code diffs are provided, use them to explain technical details.";

fn note(content: &str) -> LogItem {
    LogItem {
        id: Some(1),
        content: content.to_string(),
        log_type: "note".to_string(),
        timestamp: "2024-05-01 09:30:00".to_string(),
    }
}

fn commit(repo: Option<&str>, message: &str, diff: Option<&str>) -> GitCommit {
    GitCommit {
        hash: "abc123".to_string(),
        message: message.to_string(),
        author: "dev".to_string(),
        time: 1714550000,
        repo_name: repo.map(|r| r.to_string()),
        diff: diff.map(|d| d.to_string()),
    }
}

fn config_with_rules(rules: &str) -> AppConfig {
    let mut c = AppConfig::default();
    c.custom_rules = rules.to_string();
    c.report_template = "## Today\n- item".to_string();
    c
}

#[test]
fn analysis_prompt_for_one_note_and_one_commit() {
    let notes = vec![note("Fixed login bug")];
    let commits = vec![commit(Some("api"), "fix: null check", None)];
    let config = AppConfig::default();
    let p = generate_prompt_logic(&notes, &commits, &config, "analysis");
    assert!(p.contains("- Fixed login bug"));
    assert!(p.contains("- [api] fix: null check"));
    assert!(p.contains(ANALYSIS));
    assert!(!p.contains("```"));
    assert!(!p.contains("Code Diff Summary"));
}

#[test]
fn prompt_is_exact() {
    let notes = vec![note("one"), note("two")];
    let commits = vec![commit(Some("api"), "fix", Some("+a")), commit(None, "docs", None)];
    let config = config_with_rules("Be brief.");
    let p = generate_prompt_logic(&notes, &commits, &config, "analysis");
    let expected = format!(
        "\n        Context:\n        Manual Logs:\n        - one\n- two\n        \n        Git Commits:\n        - [api] fix\n  Code Diff Summary:\n```\n+a\n```\n- [?] docs\n        \n        System Instruction:\n        {}\n        \n        Additional User Rules:\n        Be brief.\n    ",
        ANALYSIS
    );
    assert_eq!(p, expected);
}

#[test]
fn export_prompt_follows_the_template() {
    let config = config_with_rules("R");
    let p = generate_prompt_logic(&[], &[], &config, "export");
    let expected = "\n        Context:\n        Manual Logs:\n        \n        \n        Git Commits:\n        \n        \n        System Instruction:\n        Strictly follow the format below:\n\nFormat Template:\n## Today\n- item\n        \n        Additional User Rules:\n        R\n    ";
    assert_eq!(p, expected);
}

#[test]
fn prompt_is_deterministic() {
    let notes = vec![note("a"), note("b")];
    let commits = vec![commit(Some("r"), "m", Some("d"))];
    let config = AppConfig::default();
    let first = generate_prompt_logic(&notes, &commits, &config, "analysis");
    let second = generate_prompt_logic(&notes.clone(), &commits.clone(), &config.clone(), "analysis");
    assert_eq!(first.as_bytes(), second.as_bytes());
    assert!(first.ends_with(&format!("{}\n    ", DEFAULT_CUSTOM_RULES)));
}

#[test]
fn text_comparison() {
    assert!(same_text("analysis", "analysis"));
    assert!(!same_text("analysis", "Analysis"));
    assert!(!same_text("analysis", "analysi"));
    assert!(same_text("", ""));
}

#[test]
fn default_configuration() {
    let c = AppConfig::default();
    assert_eq!(c.provider, "openai");
    assert_eq!(c.model, "gpt-4o");
    assert!(c.api_key.is_empty());
    assert!(c.git_paths.is_empty());
    assert_eq!(c.custom_rules, DEFAULT_CUSTOM_RULES);
    assert_eq!(c.report_template, DEFAULT_REPORT_TEMPLATE);
    assert!(!c.feishu_enabled && !c.deep_analysis);
    assert!(c.schedule_time.is_none() && c.base_url.is_none());
}

fn request(base_url: Option<&str>) -> AiRequest {
    AiRequest {
        provider: "openai".to_string(),
        api_key: "sk-test".to_string(),
        model: "gpt-4o".to_string(),
        prompt: "say \"hi\"\nnow".to_string(),
        base_url: base_url.map(|b| b.to_string()),
    }
}

#[test]
fn request_endpoint_and_headers() {
    assert_eq!(request(None).endpoint(), format!("{}/chat/completions", DEFAULT_BASE_URL));
    assert_eq!(request(None).endpoint(), "https://api.openai.com/v1/chat/completions");
    assert_eq!(request(Some("http://localhost:8080/v1")).endpoint(), "http://localhost:8080/v1/chat/completions");
    assert_eq!(request(None).authorization(), "Bearer sk-test");
}

#[test]
fn request_body_escapes_the_prompt() {
    assert_eq!(
        request(None).body(),
        "{\"messages\":[{\"content\":\"say \\\"hi\\\"\\nnow\",\"role\":\"user\"}],\"model\":\"gpt-4o\",\"temperature\":0.7}"
    );
}

#[test]
fn completion_content_is_the_report() {
    let raw = r#"{"choices":[{"message":{"role":"assistant","content":"All good."}}]}"#;
    assert_eq!(read_completion(raw), Ok("All good.".to_string()));
}

#[test]
fn completion_error_member_fails() {
    let raw = r#"{"error":{"message":"bad key"}}"#;
    assert_eq!(read_completion(raw), Err(r#"{"message":"bad key"}"#.to_string()));
}

#[test]
fn completion_of_other_shape_is_returned_raw() {
    let raw = r#"{"result":"text"}"#;
    assert_eq!(read_completion(raw), Ok(raw.to_string()));
}

#[test]
fn completion_that_is_no_json_fails() {
    let r = read_completion("<html>502</html>");
    assert!(matches!(r, Err(ref e) if !e.is_empty()));
}

#[test]
fn completion_result_for_each_reply() {
    assert_eq!(completion_result("raw", Reply::Unreadable("why".to_string())), Err("why".to_string()));
    assert_eq!(completion_result("raw", Reply::Refused("no".to_string())), Err("no".to_string()));
    assert_eq!(completion_result("raw", Reply::Content("yes".to_string())), Ok("yes".to_string()));
    assert_eq!(completion_result("raw", Reply::Unexpected), Ok("raw".to_string()));
}

#[test]
fn empty_day_never_asks_the_model() {
    let plan = plan_job(&[], &[], &AppConfig::default());
    assert!(matches!(plan, JobPlan::Skip(ref why) if why == "No logs or commits today. Skipping report."));
}

#[test]
fn a_note_is_enough_for_a_job() {
    let mut config = AppConfig::default();
    config.model = "local-model".to_string();
    config.base_url = Some("http://llm".to_string());
    match plan_job(&[note("wrote docs")], &[], &config) {
        JobPlan::Ask(req) => {
            assert_eq!(req.model, "local-model");
            assert_eq!(req.base_url.as_deref(), Some("http://llm"));
            assert!(req.prompt.contains("- wrote docs"));
            assert!(req.prompt.contains(ANALYSIS));
        }
        JobPlan::Skip(_) => panic!("a day with a note was skipped"),
    }
    assert!(matches!(plan_job(&[], &[commit(Some("r"), "m", None)], &config), JobPlan::Ask(_)));
}

#[test]
fn delivery_needs_all_chat_settings() {
    let mut config = AppConfig::default();
    config.feishu_app_id = Some("cli_1".to_string());
    config.feishu_app_secret = Some("SECRET-REDACTED".to_string());
    assert!(matches!(plan_delivery(Ok("r".to_string()), &config), DeliveryPlan::Undelivered(ref t) if t == "r"));
    config.feishu_target_email = Some("a@b.c".to_string());
    match plan_delivery(Ok("report".to_string()), &config) {
        DeliveryPlan::Deliver { email, report, .. } => {
            assert_eq!(email, "a@b.c");
            assert_eq!(report, "report");
        }
        _ => panic!("complete settings did not deliver"),
    }
    assert!(matches!(plan_delivery(Err("down".to_string()), &config), DeliveryPlan::Failed(ref e) if e == "down"));
}

#[test]
fn note_time_label() {
    assert_eq!(note("x").time_label(), "09:30");
    let mut n = note("x");
    n.timestamp = "12:05".to_string();
    assert_eq!(n.time_label(), "12:05");
    n.timestamp = "2024-05-01 7:5".to_string();
    assert_eq!(n.time_label(), "7:5");
}

#[test]
fn error_member_wins_over_content() {
    let raw = r#"{"error":"quota","choices":[{"message":{"content":"text"}}]}"#;
    assert_eq!(read_completion(raw), Err("\"quota\"".to_string()));
}

#[test]
fn content_that_is_no_string_returns_the_answer() {
    let raw = r#"{"choices":[{"message":{"content":null}}]}"#;
    assert_eq!(read_completion(raw), Ok(raw.to_string()));
}

#[test]
fn control_characters_are_escaped() {
    let mut req = request(None);
    req.prompt = "a\tb\u{1}c\\".to_string();
    assert_eq!(
        req.body(),
        "{\"messages\":[{\"content\":\"a\\tb\\u0001c\\\\\",\"role\":\"user\"}],\"model\":\"gpt-4o\",\"temperature\":0.7}"
    );
}

#[test]
fn time_label_takes_the_second_word() {
    let mut n = note("x");
    n.timestamp = "2024-05-01 \t 18:45:10".to_string();
    assert_eq!(n.time_label(), "18:45");
}
