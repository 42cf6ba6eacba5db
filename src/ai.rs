//! The chat-completion request that turns a prompt into a report.
use crate::json::{
    json_parse_error, json_quote, json_str_at, json_string_of, json_text_at, read_reply, Reply,
};
use vstd::prelude::*;

verus! {

/// The endpoint used when the configuration names none.
pub const DEFAULT_BASE_URL: &'static str = "https://api.openai.com/v1";

/// One request to the language model.
#[derive(Clone, Debug)]
pub struct AiRequest {
    pub provider: String,
    pub api_key: String,
    pub model: String,
    pub prompt: String,
    pub base_url: Option<String>,
}

/// The views of a textual result.
pub open spec fn result_view(r: Result<String, String>) -> Result<Seq<char>, Seq<char>> {
    match r {
        Ok(s) => Ok(s@),
        Err(e) => Err(e@),
    }
}

/// The body of a completion request: the prompt as the one user message,
/// at a fixed temperature of 0.7.
pub open spec fn completion_body(model: Seq<char>, prompt: Seq<char>) -> Seq<char> {
    "{\"messages\":[{\"content\":"@ + json_string_of(prompt) + ",\"role\":\"user\"}],\"model\":"@
        + json_string_of(model) + ",\"temperature\":0.7}"@
}

/// What a request yields for each answer: a parse fault or an `error` member
/// fails it, else the first choice's text, else the answer as it came.
pub open spec fn completion_outcome(raw: Seq<char>, reply: Reply) -> Result<Seq<char>, Seq<char>> {
    match reply {
        Reply::Unreadable(why) => Err(why@),
        Reply::Refused(err) => Err(err@),
        Reply::Content(text) => Ok(text@),
        Reply::Unexpected => Ok(raw),
    }
}

impl AiRequest {
    /// The URL that the request is posted to.
    pub fn endpoint(&self) -> (r: String)
        ensures
            r@ == match self.base_url {
                Some(b) => b@,
                None => DEFAULT_BASE_URL@,
            } + "/chat/completions"@,
    {
        let mut r = match &self.base_url {
            Some(b) => String::from_str(b.as_str()),
            None => String::from_str(DEFAULT_BASE_URL),
        };
        r.append("/chat/completions");
        r
    }

    /// The value of the `Authorization` header.
    pub fn authorization(&self) -> (r: String)
        ensures
            r@ == "Bearer "@ + self.api_key@,
    {
        let mut r = String::from_str("Bearer ");
        r.append(self.api_key.as_str());
        r
    }

    /// The JSON body of the request.
    pub fn body(&self) -> (r: String)
        ensures
            r@ == completion_body(self.model@, self.prompt@),
    {
        let mut r = String::from_str("{\"messages\":[{\"content\":");
        r.append(json_quote(self.prompt.as_str()).as_str());
        r.append(",\"role\":\"user\"}],\"model\":");
        r.append(json_quote(self.model.as_str()).as_str());
        r.append(",\"temperature\":0.7}");
        r
    }
}

/// The report, or the error, that an answer of the endpoint stands for.
pub fn completion_result(raw: &str, reply: Reply) -> (r: Result<String, String>)
    ensures
        result_view(r) == completion_outcome(raw@, reply),
{
    match reply {
        Reply::Unreadable(why) => Err(why),
        Reply::Refused(err) => Err(err),
        Reply::Content(text) => Ok(text),
        Reply::Unexpected => Ok(String::from_str(raw)),
    }
}

/// What an answer `raw` of the endpoint yields: text that is no JSON fails
/// with the parser's message; an `error` member fails with its JSON text;
/// else the first choice's message content, if it is a string; else the
/// answer as it came.
pub open spec fn completion_of(raw: Seq<char>) -> Result<Seq<char>, Seq<char>> {
    match json_parse_error(raw) {
        Some(why) => Err(why),
        None => match json_text_at(raw, "/error"@) {
            Some(err) => Err(err),
            None => match json_str_at(raw, "/choices/0/message/content"@) {
                Some(text) => Ok(text),
                None => Ok(raw),
            },
        },
    }
}

/// Reads the endpoint's answer `raw` into the report or an error.
pub fn read_completion(raw: &str) -> (r: Result<String, String>)
    ensures
        result_view(r) == completion_of(raw@),
{
    let reply = read_reply(raw);
    completion_result(raw, reply)
}

} // verus!
