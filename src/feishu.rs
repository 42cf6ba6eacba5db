//! Delivering a report through the chat-bot platform: authenticate, resolve
//! the recipient's e-mail address to a user id, send the text. Each step needs
//! the one before, and a failed step ends the delivery.
use crate::json::{
    json_dump, json_parse_error, json_quote, json_str_at, json_string_of, lookup_string, Lookup,
};
use vstd::prelude::*;

verus! {

/// Exchanges the app's id and secret for a tenant access token.
pub const TOKEN_URL: &'static str = "https://open.feishu.cn/open-apis/auth/v3/tenant_access_token/internal";

/// Looks up users' open ids by e-mail address.
pub const USER_ID_URL: &'static str = "https://open.feishu.cn/open-apis/contact/v3/users/batch_get_id?user_id_type=open_id";

/// Sends a message to a user given by open id.
pub const MESSAGE_URL: &'static str = "https://open.feishu.cn/open-apis/im/v1/messages?receive_id_type=open_id";

/// The credentials of a chat-bot app.
pub struct FeishuClient {
    app_id: String,
    app_secret: String,
}

/// An answer of the platform to one request.
pub struct HttpAnswer {
    pub status: u16,
    /// The status as the transport prints it, code and reason.
    pub status_line: String,
    pub body: String,
}

/// A request to post `body` to `url`, with `token` as bearer if there is one.
pub struct Post {
    pub url: String,
    pub token: Option<String>,
    pub body: String,
}

/// Where a delivery stands.
pub enum DeliveryStage {
    Authenticating,
    Resolving { token: String },
    Sending,
    Delivered,
    Failed { reason: String },
}

/// What the runner of a delivery does next.
pub enum DeliveryAction {
    Send(Post),
    Finish(Result<(), String>),
}

pub open spec fn token_body(app_id: Seq<char>, app_secret: Seq<char>) -> Seq<char> {
    "{\"app_id\":"@ + json_string_of(app_id) + ",\"app_secret\":"@ + json_string_of(app_secret)
        + "}"@
}

pub open spec fn lookup_body(email: Seq<char>) -> Seq<char> {
    "{\"emails\":["@ + json_string_of(email) + "]}"@
}

/// The message body: a text message whose content is itself a JSON document.
pub open spec fn message_body(receive_id: Seq<char>, text: Seq<char>) -> Seq<char> {
    "{\"content\":"@ + json_string_of("{\"text\":"@ + json_string_of(text) + "}"@)
        + ",\"msg_type\":\"text\",\"receive_id\":"@ + json_string_of(receive_id) + "}"@
}

/// The token that an authentication answer yields, or why there is none.
pub open spec fn token_outcome(look: Lookup) -> Result<Seq<char>, Seq<char>> {
    match look {
        Lookup::Unreadable(why) => Err(why@),
        Lookup::Found(t) => Ok(t@),
        Lookup::Absent(doc) => Err("Auth Failed: "@ + doc@),
    }
}

/// The user id that a lookup answer yields, or why there is none.
pub open spec fn user_outcome(look: Lookup, email: Seq<char>) -> Result<Seq<char>, Seq<char>> {
    match look {
        Lookup::Unreadable(why) => Err(why@),
        Lookup::Found(id) => Ok(id@),
        Lookup::Absent(_) => Err("User not found for email: "@ + email),
    }
}

/// The token that the authentication answer `doc` yields: the string
/// `tenant_access_token`; else a dump of the answer after `Auth Failed: `; or
/// the parser's message for text that is no JSON.
pub open spec fn token_of(doc: Seq<char>) -> Result<Seq<char>, Seq<char>> {
    match json_parse_error(doc) {
        Some(why) => Err(why),
        None => match json_str_at(doc, "/tenant_access_token"@) {
            Some(t) => Ok(t),
            None => Err("Auth Failed: "@ + json_dump(doc)->0),
        },
    }
}

/// The user id that the lookup answer `doc` yields for `email`: the string
/// `user_id` of the first user listed; else `User not found for email: `
/// followed by the address; or the parser's message for text that is no JSON.
pub open spec fn user_of(doc: Seq<char>, email: Seq<char>) -> Result<Seq<char>, Seq<char>> {
    match json_parse_error(doc) {
        Some(why) => Err(why),
        None => match json_str_at(doc, "/data/user_list/0/user_id"@) {
            Some(id) => Ok(id),
            None => Err("User not found for email: "@ + email),
        },
    }
}

/// Whether a message was accepted: a status in the success range.
pub open spec fn send_outcome(status: u16, line: Seq<char>, body: Seq<char>) -> Result<(), Seq<char>> {
    if 200 <= status <= 299 {
        Ok(())
    } else {
        Err("Send failed: "@ + line + " - "@ + body)
    }
}

/// The delivery has failed for `why`, and the runner is told so.
pub open spec fn fails_with(next: DeliveryStage, act: DeliveryAction, why: Seq<char>) -> bool {
    &&& next matches DeliveryStage::Failed { reason } && reason@ == why
    &&& act matches DeliveryAction::Finish(Err(e)) && e@ == why
}

/// The runner is asked to post `body` to `url` with `token` as bearer.
pub open spec fn posts(act: DeliveryAction, url: Seq<char>, token: Seq<char>, body: Seq<char>) -> bool {
    match act {
        DeliveryAction::Send(p) => p.url@ == url && p.body@ == body && (match p.token {
            Some(t) => t@ == token,
            None => false,
        }),
        _ => false,
    }
}

/// One step of a delivery of `report` to `email`, given the answer to the
/// step's request.
pub open spec fn delivery_step(
    client: FeishuClient,
    email: Seq<char>,
    report: Seq<char>,
    stage: DeliveryStage,
    reply: Result<HttpAnswer, String>,
    next: DeliveryStage,
    act: DeliveryAction,
) -> bool {
    match stage {
        DeliveryStage::Delivered => next is Delivered && act matches DeliveryAction::Finish(Ok(())),
        DeliveryStage::Failed { reason } => fails_with(next, act, reason@),
        DeliveryStage::Authenticating => match reply {
            Err(e) => fails_with(next, act, e@),
            Ok(a) => match token_of(a.body@) {
                Ok(tok) => next matches DeliveryStage::Resolving { token } && token@ == tok && posts(
                    act,
                    USER_ID_URL@,
                    tok,
                    lookup_body(email),
                ),
                Err(why) => fails_with(next, act, why),
            },
        },
        DeliveryStage::Resolving { token } => match reply {
            Err(e) => fails_with(next, act, e@),
            Ok(a) => match user_of(a.body@, email) {
                Ok(id) => next is Sending && posts(act, MESSAGE_URL@, token@, message_body(id, report)),
                Err(why) => fails_with(next, act, why),
            },
        },
        DeliveryStage::Sending => match reply {
            Err(e) => fails_with(next, act, e@),
            Ok(a) => match send_outcome(a.status, a.status_line@, a.body@) {
                Ok(_) => next is Delivered && act matches DeliveryAction::Finish(Ok(())),
                Err(why) => fails_with(next, act, why),
            },
        },
    }
}

fn failure(why: String) -> (r: (DeliveryStage, DeliveryAction))
    ensures
        fails_with(r.0, r.1, why@),
{
    let again = String::from_str(why.as_str());
    (DeliveryStage::Failed { reason: why }, DeliveryAction::Finish(Err(again)))
}

impl FeishuClient {
    pub fn new(app_id: String, app_secret: String) -> (r: FeishuClient)
        ensures
            r.app_id() == app_id@,
            r.app_secret() == app_secret@,
    {
        FeishuClient { app_id, app_secret }
    }

    pub closed spec fn app_id(&self) -> Seq<char> {
        self.app_id@
    }

    pub closed spec fn app_secret(&self) -> Seq<char> {
        self.app_secret@
    }

    /// The body that asks for a tenant access token.
    pub fn token_request_body(&self) -> (r: String)
        ensures
            r@ == token_body(self.app_id(), self.app_secret()),
    {
        let mut r = String::from_str("{\"app_id\":");
        r.append(json_quote(self.app_id.as_str()).as_str());
        r.append(",\"app_secret\":");
        r.append(json_quote(self.app_secret.as_str()).as_str());
        r.append("}");
        r
    }

    /// Starts a delivery: its first request asks for a token.
    pub fn start(&self) -> (r: (DeliveryStage, DeliveryAction))
        ensures
            r.0 is Authenticating,
            r.1 matches DeliveryAction::Send(p) && p.url@ == TOKEN_URL@ && p.token is None && p.body@
                == token_body(self.app_id(), self.app_secret()),
    {
        let post = Post {
            url: String::from_str(TOKEN_URL),
            token: None,
            body: self.token_request_body(),
        };
        (DeliveryStage::Authenticating, DeliveryAction::Send(post))
    }
}

/// The body that looks up the user id of `email`.
pub fn user_lookup_body(email: &str) -> (r: String)
    ensures
        r@ == lookup_body(email@),
{
    let mut r = String::from_str("{\"emails\":[");
    r.append(json_quote(email).as_str());
    r.append("]}");
    r
}

/// The body that sends `text` to the user `receive_id`.
pub fn text_message_body(receive_id: &str, text: &str) -> (r: String)
    ensures
        r@ == message_body(receive_id@, text@),
{
    let mut inner = String::from_str("{\"text\":");
    inner.append(json_quote(text).as_str());
    inner.append("}");
    let mut r = String::from_str("{\"content\":");
    r.append(json_quote(inner.as_str()).as_str());
    r.append(",\"msg_type\":\"text\",\"receive_id\":");
    r.append(json_quote(receive_id).as_str());
    r.append("}");
    r
}

/// The token that an authentication answer yields.
pub fn token_result(look: Lookup) -> (r: Result<String, String>)
    ensures
        match r {
            Ok(t) => token_outcome(look) == Ok::<Seq<char>, Seq<char>>(t@),
            Err(e) => token_outcome(look) == Err::<Seq<char>, Seq<char>>(e@),
        },
{
    match look {
        Lookup::Unreadable(why) => Err(why),
        Lookup::Found(t) => Ok(t),
        Lookup::Absent(doc) => {
            let mut e = String::from_str("Auth Failed: ");
            e.append(doc.as_str());
            Err(e)
        },
    }
}

/// The user id that a lookup answer yields for `email`.
pub fn user_id_result(look: Lookup, email: &str) -> (r: Result<String, String>)
    ensures
        match r {
            Ok(t) => user_outcome(look, email@) == Ok::<Seq<char>, Seq<char>>(t@),
            Err(e) => user_outcome(look, email@) == Err::<Seq<char>, Seq<char>>(e@),
        },
{
    match look {
        Lookup::Unreadable(why) => Err(why),
        Lookup::Found(id) => Ok(id),
        Lookup::Absent(_) => {
            let mut e = String::from_str("User not found for email: ");
            e.append(email);
            Err(e)
        },
    }
}

/// Whether the platform accepted a message, from its answer.
pub fn send_result(answer: &HttpAnswer) -> (r: Result<(), String>)
    ensures
        match r {
            Ok(_) => send_outcome(answer.status, answer.status_line@, answer.body@) is Ok,
            Err(e) => send_outcome(answer.status, answer.status_line@, answer.body@) == Err::<
                (),
                Seq<char>,
            >(e@),
        },
{
    if 200 <= answer.status && answer.status <= 299 {
        Ok(())
    } else {
        let mut e = String::from_str("Send failed: ");
        e.append(answer.status_line.as_str());
        e.append(" - ");
        e.append(answer.body.as_str());
        Err(e)
    }
}

impl FeishuClient {
    /// Takes a delivery of `report` to `email` one step on, from the answer to
    /// the step's request (`Err` where the request could not be made).
    pub fn advance(
        &self,
        email: &str,
        report: &str,
        stage: DeliveryStage,
        reply: Result<HttpAnswer, String>,
    ) -> (r: (DeliveryStage, DeliveryAction))
        ensures
            delivery_step(*self, email@, report@, stage, reply, r.0, r.1),
    {
        match stage {
            DeliveryStage::Delivered => {
                let r = (DeliveryStage::Delivered, DeliveryAction::Finish(Ok(())));
                                r
            },
            DeliveryStage::Failed { reason } => {
                let r = failure(reason);
                                r
            },
            DeliveryStage::Authenticating => match reply {
                Err(e) => {
                    let r = failure(e);
                                        r
                },
                Ok(answer) => {
                    let look = lookup_string(answer.body.as_str(), "/tenant_access_token");
                    let r = match token_result(look) {
                        Ok(tok) => {
                            let post = Post {
                                url: String::from_str(USER_ID_URL),
                                token: Some(String::from_str(tok.as_str())),
                                body: user_lookup_body(email),
                            };
                            (DeliveryStage::Resolving { token: tok }, DeliveryAction::Send(post))
                        },
                        Err(why) => failure(why),
                    };
                                        r
                },
            },
            DeliveryStage::Resolving { token } => match reply {
                Err(e) => {
                    let r = failure(e);
                                        r
                },
                Ok(answer) => {
                    let look = lookup_string(answer.body.as_str(), "/data/user_list/0/user_id");
                    let r = match user_id_result(look, email) {
                        Ok(id) => {
                            let post = Post {
                                url: String::from_str(MESSAGE_URL),
                                token: Some(token),
                                body: text_message_body(id.as_str(), report),
                            };
                            (DeliveryStage::Sending, DeliveryAction::Send(post))
                        },
                        Err(why) => failure(why),
                    };
                                        r
                },
            },
            DeliveryStage::Sending => match reply {
                Err(e) => {
                    let r = failure(e);
                                        r
                },
                Ok(answer) => {
                    let r = match send_result(&answer) {
                        Ok(_) => (DeliveryStage::Delivered, DeliveryAction::Finish(Ok(()))),
                        Err(why) => failure(why),
                    };
                                        r
                },
            },
        }
    }
}

/// A delivery is all-or-nothing: once a step has failed, every later step
/// keeps that failure and asks for no further request.
pub proof fn lemma_failure_is_final(
    client: FeishuClient,
    email: Seq<char>,
    report: Seq<char>,
    reason: String,
    reply: Result<HttpAnswer, String>,
    next: DeliveryStage,
    act: DeliveryAction,
)
    requires
        delivery_step(client, email, report, DeliveryStage::Failed { reason }, reply, next, act),
    ensures
        next matches DeliveryStage::Failed { reason: r } && r@ == reason@,
        act matches DeliveryAction::Finish(Err(e)) && e@ == reason@,
{
}

/// The message goes out only after both earlier steps succeeded: a step that
/// asks to post to the message endpoint comes from a resolved recipient.
pub proof fn lemma_send_needs_recipient(
    client: FeishuClient,
    email: Seq<char>,
    report: Seq<char>,
    stage: DeliveryStage,
    reply: Result<HttpAnswer, String>,
    next: DeliveryStage,
    act: DeliveryAction,
)
    requires
        delivery_step(client, email, report, stage, reply, next, act),
        next is Sending,
    ensures
        stage is Resolving,
        reply is Ok,
        reply matches Ok(a) && user_of(a.body@, email) is Ok,
{
}

} // verus!
