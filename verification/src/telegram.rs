//! The remote messaging client's verified half: URL construction, response
//! envelope unpacking, token redaction, reply filtering and the drain step.
//! The network calls themselves are performed by the application shell, which
//! feeds their decoded results into these functions.

use vstd::prelude::*;

use crate::text::{
    int_digits, is_blank, i64_to_string, replace_all, replace_spec, trim_spec,
};

verus! {

/// An error surfaced by the messaging client.
#[derive(Debug, Clone)]
pub enum TelegramError {
    /// The remote service answered with `ok = false`; carries the remote
    /// error code (0 when absent) and description ("unknown telegram error"
    /// when absent).
    Protocol { code: i64, description: String },
    /// The remote service answered `ok = true` but sent no payload.
    MissingResult,
    /// A network-level failure; the text has the auth token already redacted.
    Transport { message: String },
}

impl TelegramError {
    /// The diagnostic text for this error.
    pub open spec fn message_spec(self) -> Seq<char> {
        match self {
            TelegramError::Protocol { code, description } => "telegram api error "@ + int_digits(
                code as int,
            ) + ": "@ + description@,
            TelegramError::MissingResult => "telegram response missing result despite ok=true"@,
            TelegramError::Transport { message } => message@,
        }
    }

    /// Renders the diagnostic text.
    pub fn message(&self) -> (r: String)
        ensures
            r@ == self.message_spec(),
    {
        match self {
            TelegramError::Protocol { code, description } => {
                let mut out = "telegram api error ".to_owned();
                let code_text = i64_to_string(*code);
                out.append(code_text.as_str());
                out.append(": ");
                out.append(description.as_str());
                out
            },
            TelegramError::MissingResult => "telegram response missing result despite ok=true"
                .to_owned(),
            TelegramError::Transport { message } => message.clone(),
        }
    }
}

/// What a redacted token is shown as.
pub open spec fn redaction_marker() -> Seq<char> {
    "<redacted>"@
}

/// `text` with every occurrence of `token` replaced by the redaction marker;
/// with an empty token the text is kept unchanged (a replacement would
/// otherwise insert the marker between every pair of characters).
pub open spec fn redacted(text: Seq<char>, token: Seq<char>) -> Seq<char> {
    if token.len() == 0 {
        text
    } else {
        replace_spec(text, token, redaction_marker())
    }
}

/// Removes the auth token from diagnostic text, replacing each occurrence
/// with `"<redacted>"`. An empty token leaves the text unmodified.
pub fn redact_token(text: &str, token: &str) -> (r: String)
    ensures
        r@ == redacted(text@, token@),
{
    if token.is_empty() {
        text.to_owned()
    } else {
        replace_all(text, token, "<redacted>")
    }
}

/// The tagged envelope every remote call answers with.
#[derive(Debug, Clone)]
pub struct ApiResponse<T> {
    pub ok: bool,
    pub result: Option<T>,
    pub description: Option<String>,
    pub error_code: Option<i64>,
}

impl<T> ApiResponse<T> {
    /// Unpacks the envelope: a success must carry its payload, and a failure
    /// surfaces the remote code and description, with defaults where absent.
    pub fn into_result(self) -> (r: Result<T, TelegramError>)
        ensures
            self.ok && self.result is Some ==> (r matches Ok(v) && v == self.result.unwrap()),
            self.ok && self.result is None ==> r == Result::<T, TelegramError>::Err(
                TelegramError::MissingResult,
            ),
            !self.ok ==> (r matches Err(e) && e matches TelegramError::Protocol {
                code,
                description,
            } && code == (if self.error_code is Some {
                self.error_code.unwrap()
            } else {
                0
            }) && description@ == (if self.description is Some {
                self.description.unwrap()@
            } else {
                "unknown telegram error"@
            })),
    {
        if self.ok {
            match self.result {
                Some(v) => Ok(v),
                None => Err(TelegramError::MissingResult),
            }
        } else {
            let code: i64 = match self.error_code {
                Some(c) => c,
                None => 0,
            };
            let description: String = match self.description {
                Some(d) => d,
                None => "unknown telegram error".to_owned(),
            };
            Err(TelegramError::Protocol { code, description })
        }
    }
}

/// One event retrieved from the remote service.
#[derive(Debug, Clone)]
pub struct Update {
    pub update_id: i64,
    pub message: Option<Message>,
}

/// The message a retrieved event may embed.
#[derive(Debug, Clone)]
pub struct Message {
    pub from: Option<User>,
    pub chat: Chat,
    pub text: Option<String>,
}

/// The conversation a message belongs to.
#[derive(Debug, Clone)]
pub struct Chat {
    pub id: i64,
}

/// The sender of a message.
#[derive(Debug, Clone)]
pub struct User {
    pub id: i64,
}

/// An event counts as the awaited reply exactly when it embeds a message
/// whose sender and conversation both equal the configured recipient and
/// whose text is present and non-empty after trimming.
pub open spec fn is_candidate_reply(u: Update, user_id: i64) -> bool {
    &&& u.message is Some
    &&& u.message.unwrap().from is Some
    &&& u.message.unwrap().from.unwrap().id == user_id
    &&& u.message.unwrap().chat.id == user_id
    &&& u.message.unwrap().text is Some
    &&& trim_spec(u.message.unwrap().text.unwrap()@).len() > 0
}

/// The text of `update`'s embedded message when the event is a candidate
/// reply for `user_id`, and nothing otherwise.
pub fn extract_text_reply<'a>(update: &'a Update, user_id: i64) -> (r: Option<&'a str>)
    ensures
        r is Some <==> is_candidate_reply(*update, user_id),
        r matches Some(t) ==> t@ == update.message.unwrap().text.unwrap()@,
{
    match &update.message {
        None => None,
        Some(msg) => {
            match &msg.from {
                None => None,
                Some(from) => {
                    if from.id != user_id {
                        None
                    } else if msg.chat.id != user_id {
                        None
                    } else {
                        match &msg.text {
                            None => None,
                            Some(t) => {
                                if is_blank(t.as_str()) {
                                    None
                                } else {
                                    Some(t.as_str())
                                }
                            },
                        }
                    }
                },
            }
        },
    }
}

/// Every sequence number in the batch leaves room to advance a cursor one
/// past it without overflowing.
pub open spec fn batch_ids_bounded(s: Seq<Update>) -> bool {
    forall|k: int| 0 <= k < s.len() ==> s[k].update_id < i64::MAX
}

/// What a drain pass does after one retrieval: an empty batch ends the drain
/// at the current cursor, and a non-empty batch advances the cursor past the
/// last event seen.
#[derive(Debug, Clone, Copy, PartialEq, Eq, Structural)]
pub enum DrainStep {
    Done { cursor: i64 },
    Continue { offset: i64 },
}

/// The drain decision as a function of the cursor and the retrieved batch.
pub open spec fn drain_step_model(offset: i64, batch: Seq<Update>) -> DrainStep {
    if batch.len() == 0 {
        DrainStep::Done { cursor: offset }
    } else {
        DrainStep::Continue { offset: (batch.last().update_id + 1) as i64 }
    }
}

/// Decides how a drain pass proceeds after retrieving `batch` at `offset`.
pub fn drain_step(offset: i64, batch: &Vec<Update>) -> (r: DrainStep)
    requires
        batch_ids_bounded(batch@),
    ensures
        r == drain_step_model(offset, batch@),
{
    if batch.len() == 0 {
        DrainStep::Done { cursor: offset }
    } else {
        let last_id = batch[batch.len() - 1].update_id;
        DrainStep::Continue { offset: last_id + 1 }
    }
}

/// The cursor a whole drain reports, as a function of the batches it
/// observes in order: each non-empty batch advances the cursor, the first
/// empty batch ends the drain. `None` when the drain is still going after
/// the last batch.
pub open spec fn drain_result_model(offset: i64, batches: Seq<Seq<Update>>) -> Option<i64>
    decreases batches.len(),
{
    if batches.len() == 0 {
        Option::None
    } else {
        match drain_step_model(offset, batches[0]) {
            DrainStep::Done { cursor } => Option::Some(cursor),
            DrainStep::Continue { offset: advanced } => drain_result_model(
                advanced,
                batches.skip(1),
            ),
        }
    }
}

/// Draining is idempotent when nothing is pending: a drain that observes
/// only empty batches ends at the very cursor it started from. Two
/// consecutive drains with no new events each observe an empty batch at
/// once, so both report their starting cursor — the same one.
pub proof fn lemma_drain_idempotent(offset: i64, batches: Seq<Seq<Update>>)
    requires
        batches.len() > 0,
        forall|i: int| 0 <= i < batches.len() ==> batches[i].len() == 0,
    ensures
        drain_result_model(offset, batches) == Option::Some(offset),
{
    assert(batches[0].len() == 0);
}

/// The client's identity for the remote service: where to call and how to
/// authenticate. The HTTP connection itself is owned by the application
/// shell.
#[derive(Debug, Clone)]
pub struct TelegramClient {
    pub base_url: String,
    pub token: String,
}

impl TelegramClient {
    /// A client for the public API endpoint.
    pub fn new(token: String) -> (r: Self)
        ensures
            r.token == token,
            r.base_url@ == "https://api.telegram.org"@,
    {
        TelegramClient { base_url: "https://api.telegram.org".to_owned(), token }
    }

    /// The authenticated endpoint for one method call.
    pub fn method_url(&self, method: &str) -> (r: String)
        ensures
            r@ == self.base_url@ + "/bot"@ + self.token@ + "/"@ + method@,
    {
        let mut out = self.base_url.clone();
        out.append("/bot");
        out.append(self.token.as_str());
        out.append("/");
        out.append(method);
        out
    }

    /// The error surfaced when the transport layer fails: the underlying
    /// error text with the auth token redacted (transport errors may embed
    /// the request URL, which embeds the token), tagged with the method name.
    pub fn transport_error(&self, method: &str, error_text: &str) -> (r: TelegramError)
        ensures
            r matches TelegramError::Transport { message } && message@
                == "telegram request failed: method="@ + method@ + ": "@ + redacted(
                error_text@,
                self.token@,
            ),
    {
        let mut out = "telegram request failed: method=".to_owned();
        out.append(method);
        out.append(": ");
        let red = redact_token(error_text, self.token.as_str());
        out.append(red.as_str());
        TelegramError::Transport { message: out }
    }
}

} // verus!
