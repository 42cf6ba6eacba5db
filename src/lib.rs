//! A daily work-report assistant: it gathers the day's notes and commits,
//! composes a prompt for a language model, reads the model's reply and
//! delivers the report through a chat-bot platform on a daily schedule.
pub mod text;
pub mod model;
pub mod git;
pub mod prompt;
pub mod json;
pub mod ai;
pub mod feishu;
pub mod clock;
pub mod scheduler;
pub mod job;
pub mod config;
