//! The records that flow through a report job: notes, commits and the
//! configuration snapshot.
use crate::text::{split_words, views, words};
use vstd::prelude::*;

verus! {

/// A note written by the user during the day.
#[derive(Clone, Debug)]
pub struct LogItem {
    pub id: Option<i64>,
    pub content: String,
    /// One of `task`, `note` or `problem`.
    pub log_type: String,
    pub timestamp: String,
}

/// A commit found by scanning a repository.
#[derive(Clone, Debug)]
pub struct GitCommit {
    pub hash: String,
    pub message: String,
    pub author: String,
    /// Seconds since the Unix epoch.
    pub time: i64,
    pub repo_name: Option<String>,
    pub diff: Option<String>,
}

/// What a commit record holds, as plain sequences.
pub struct CommitView {
    pub hash: Seq<char>,
    pub message: Seq<char>,
    pub author: Seq<char>,
    pub time: i64,
    pub repo_name: Option<Seq<char>>,
    pub diff: Option<Seq<char>>,
}

pub open spec fn opt_view(o: Option<String>) -> Option<Seq<char>> {
    match o {
        Some(s) => Some(s@),
        None => None,
    }
}

impl View for GitCommit {
    type V = CommitView;

    open spec fn view(&self) -> CommitView {
        CommitView {
            hash: self.hash@,
            message: self.message@,
            author: self.author@,
            time: self.time,
            repo_name: opt_view(self.repo_name),
            diff: opt_view(self.diff),
        }
    }
}

/// The views of a sequence of commits.
pub open spec fn commit_views(v: Seq<GitCommit>) -> Seq<CommitView> {
    v.map_values(|c: GitCommit| c@)
}

/// The contents of a sequence of notes.
pub open spec fn note_contents(v: Seq<LogItem>) -> Seq<Seq<char>> {
    v.map_values(|l: LogItem| l.content@)
}

/// The clock time of a `YYYY-MM-DD HH:MM:SS` timestamp, `HH:MM`: the first five
/// characters of its second word, or of the whole text if it has no second
/// word.
pub open spec fn time_label(ts: Seq<char>) -> Seq<char> {
    let p = words(ts);
    let t = if p.len() >= 2 {
        p[1]
    } else {
        ts
    };
    if t.len() <= 5 {
        t
    } else {
        t.take(5)
    }
}

impl LogItem {
    /// The time of day at which the note was written, for listings.
    pub fn time_label(&self) -> (r: String)
        ensures
            r@ == time_label(self.timestamp@),
    {
        let p = split_words(self.timestamp.as_str());
        proof {
            assert(views(p@).len() == p@.len());
        }
        let t = if p.len() >= 2 {
            proof {
                assert(views(p@)[1] == p@[1]@);
            }
            p[1].as_str()
        } else {
            self.timestamp.as_str()
        };
        let n = t.unicode_len();
        if n <= 5 {
            String::from_str(t)
        } else {
            String::from_str(t.substring_char(0, 5))
        }
    }
}

/// The rules that a new configuration asks the model to follow.
pub const DEFAULT_CUSTOM_RULES: &'static str = r#"# Role: 高效汇报助手

# Profile
- Author: Gemini
- Description: 专注于将碎片的日常工作记录转化为逻辑清晰、简明扼要的职业日报。
- Tone: 以此为基调：专业、理性、结果导向、言简意赅。

# Workflow (模式 [输入] → 变换* → 输出)
1.  **输入解析 (Input Analysis)**:
    - 接收用户输入的原始工作记录（可能包含口语、碎片化信息）。
    - 识别关键要素：完成的任务、遇到的阻碍、实施的解决方案。

2.  **核心变换 (Transformation Process)**:
    - **去噪 (Filter)**: 剔除无关的语气词和琐碎细节，保留核心动作与结果。
    - **重构 (Restructure)**:
        - 将“流水账”转换为“完成事项”（使用动宾结构，如“完成...”，“优化...”）。
        - 将“问题与解决”配对，强调闭环（即问题已解决或有明确后续）。
    - **升维 (Elevate)**: 调整措辞，使其更具职业素养（例如将“修了个bug”转换为“修复系统异常，提升稳定性”）。
    - **压缩 (Condense)**: 确保整体篇幅短小精悍，适合领导在手机端快速扫读。

3.  **输出生成 (Output Generation)**:
    - 按照预设的【日报模板】输出最终文本。

# Constraints
- 必须保持客观，避免主观情绪宣泄。
- “问题与解决方案”部分，如果问题未解决，必须给出预计解决时间或需要的支持。
- 列表项不超过 5 项，重点突前。"#;

/// The report template of a new configuration.
pub const DEFAULT_REPORT_TEMPLATE: &'static str = r#"**【📅 日报 - MM月DD日】**

**✅ 今日产出**
* [事项1]：[结果/进度]
* [事项2]：[结果/进度]

**⚠️ 问题与对策**
* **问题**：[简述核心问题]
    **解决**：[已采取的措施 或 下一步计划]"#;

/// A snapshot of the user's settings.
#[derive(Clone, Debug)]
pub struct AppConfig {
    pub api_key: String,
    /// The repositories to scan, in the order they were added.
    pub git_paths: Vec<String>,
    pub provider: String,
    pub model: String,
    pub base_url: Option<String>,
    pub custom_rules: String,
    pub report_template: String,
    /// Whether each commit's patch is fetched too.
    pub deep_analysis: bool,
    pub feishu_app_id: Option<String>,
    pub feishu_app_secret: Option<String>,
    pub feishu_target_email: Option<String>,
    /// The daily delivery time, `HH:MM` on a 24-hour clock.
    pub schedule_time: Option<String>,
    pub feishu_enabled: bool,
}

impl Default for AppConfig {
    fn default() -> (r: AppConfig)
        ensures
            r.api_key@ == Seq::<char>::empty(),
            r.git_paths@.len() == 0,
            r.provider@ == "openai"@,
            r.model@ == "gpt-4o"@,
            r.base_url.is_none(),
            r.custom_rules@ == DEFAULT_CUSTOM_RULES@,
            r.report_template@ == DEFAULT_REPORT_TEMPLATE@,
            !r.deep_analysis,
            r.feishu_app_id.is_none(),
            r.feishu_app_secret.is_none(),
            r.feishu_target_email.is_none(),
            r.schedule_time.is_none(),
            !r.feishu_enabled,
    {
        AppConfig {
            api_key: String::new(),
            git_paths: Vec::new(),
            provider: String::from_str("openai"),
            model: String::from_str("gpt-4o"),
            base_url: None,
            custom_rules: String::from_str(DEFAULT_CUSTOM_RULES),
            report_template: String::from_str(DEFAULT_REPORT_TEMPLATE),
            deep_analysis: false,
            feishu_app_id: None,
            feishu_app_secret: None,
            feishu_target_email: None,
            schedule_time: None,
            feishu_enabled: false,
        }
    }
}

} // verus!
