//! One scheduled report job: gather, compose, ask the model, deliver.
use crate::ai::AiRequest;
use crate::feishu::FeishuClient;
use crate::model::{commit_views, note_contents, AppConfig, GitCommit, LogItem};
use crate::prompt::{generate_prompt_logic, prompt_text};
use vstd::prelude::*;

verus! {

/// What a job does once the day's notes and commits are gathered.
pub enum JobPlan {
    /// Nothing to report today; why.
    Skip(String),
    /// Ask the model for the report.
    Ask(AiRequest),
}

/// What a job does with the model's answer.
pub enum DeliveryPlan {
    /// The model gave no report; why.
    Failed(String),
    /// Deliver `report` to `email` with the app credentials of `client`.
    Deliver { client: FeishuClient, email: String, report: String },
    /// The chat-bot settings are incomplete: keep `report` undelivered.
    Undelivered(String),
}

/// The analysis request for the day: the composed prompt, with the model,
/// key, provider and endpoint of the configuration.
pub open spec fn asks_for_analysis(
    req: AiRequest,
    logs: Seq<LogItem>,
    commits: Seq<GitCommit>,
    config: AppConfig,
) -> bool {
    &&& req.prompt@ == prompt_text(
        note_contents(logs),
        commit_views(commits),
        config.report_template@,
        config.custom_rules@,
        true,
    )
    &&& req.model@ == config.model@
    &&& req.api_key@ == config.api_key@
    &&& req.provider@ == config.provider@
    &&& match (req.base_url, config.base_url) {
        (Some(a), Some(b)) => a@ == b@,
        (None, None) => true,
        _ => false,
    }
}

fn copy_opt(o: &Option<String>) -> (r: Option<String>)
    ensures
        match (r, *o) {
            (Some(a), Some(b)) => a@ == b@,
            (None, None) => true,
            _ => false,
        },
{
    match o {
        Some(s) => Some(String::from_str(s.as_str())),
        None => None,
    }
}

/// Decides, from the day's notes and commits, whether there is anything to
/// report; a day with neither never reaches the model.
pub fn plan_job(logs: &[LogItem], commits: &[GitCommit], config: &AppConfig) -> (r: JobPlan)
    ensures
        r is Skip <==> (logs@.len() == 0 && commits@.len() == 0),
        r matches JobPlan::Skip(why) ==> why@ == "No logs or commits today. Skipping report."@,
        r matches JobPlan::Ask(req) ==> asks_for_analysis(req, logs@, commits@, *config),
{
    if logs.len() == 0 && commits.len() == 0 {
        return JobPlan::Skip(String::from_str("No logs or commits today. Skipping report."));
    }
    let prompt = generate_prompt_logic(logs, commits, config, "analysis");
    JobPlan::Ask(
        AiRequest {
            provider: String::from_str(config.provider.as_str()),
            api_key: String::from_str(config.api_key.as_str()),
            model: String::from_str(config.model.as_str()),
            prompt,
            base_url: copy_opt(&config.base_url),
        },
    )
}

/// Decides what becomes of the model's answer: a failure ends the job; a
/// report is delivered when the app id, the secret and the recipient are all
/// configured, and kept undelivered otherwise.
pub fn plan_delivery(reply: Result<String, String>, config: &AppConfig) -> (r: DeliveryPlan)
    ensures
        match reply {
            Err(e) => r matches DeliveryPlan::Failed(why) && why@ == e@,
            Ok(report) => match (
                config.feishu_app_id,
                config.feishu_app_secret,
                config.feishu_target_email,
            ) {
                (Some(id), Some(secret), Some(target)) => r matches DeliveryPlan::Deliver {
                    client,
                    email,
                    report: text,
                } && client.app_id() == id@ && client.app_secret() == secret@ && email@ == target@
                    && text@ == report@,
                _ => r matches DeliveryPlan::Undelivered(text) && text@ == report@,
            },
        },
{
    match reply {
        Err(e) => DeliveryPlan::Failed(e),
        Ok(report) => match (
            &config.feishu_app_id,
            &config.feishu_app_secret,
            &config.feishu_target_email,
        ) {
            (Some(id), Some(secret), Some(target)) => DeliveryPlan::Deliver {
                client: FeishuClient::new(
                    String::from_str(id.as_str()),
                    String::from_str(secret.as_str()),
                ),
                email: String::from_str(target.as_str()),
                report,
            },
            _ => DeliveryPlan::Undelivered(report),
        },
    }
}

} // verus!
