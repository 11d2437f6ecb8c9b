//! The answer to a request for the credential.
//!
//! The credential is handed on as the source gave it, marked as JSON. Any
//! failure is answered alike, without a word of its cause.

use crate::cache::{FetchError, FetchErrorView};
use crate::logger::{logged, logs, texts};
use crate::text::{append_decimal, decimal};
use vstd::prelude::*;
use vstd::string::StringExecFns;

verus! {

/// The status of an answer that carries the credential.
pub const STATUS_OK: u16 = 200;

/// The status of an answer to a request that failed.
pub const STATUS_FAILED: u16 = 500;

/// How the body of an answer is marked when it carries the credential.
pub const JSON_TYPE: &'static str = "application/json";

/// The body of an answer to a request that failed.
pub const FAILURE_BODY: &'static str = "Failed to extract token";

/// An answer: its status, the content type it is marked with, if any, and its
/// body.
#[derive(Debug, PartialEq, Eq)]
pub struct Reply {
    pub status: u16,
    pub content_type: Option<String>,
    pub body: String,
}

pub struct ReplyView {
    pub status: u16,
    pub content_type: Option<Seq<char>>,
    pub body: Seq<char>,
}

impl View for Reply {
    type V = ReplyView;

    open spec fn view(&self) -> ReplyView {
        ReplyView {
            status: self.status,
            content_type: match self.content_type {
                Some(marker) => Some(marker@),
                None => None,
            },
            body: self.body@,
        }
    }
}

/// The answer to each outcome.
pub open spec fn reply_to(outcome: Result<Seq<char>, FetchErrorView>) -> ReplyView {
    match outcome {
        Ok(payload) => ReplyView {
            status: STATUS_OK,
            content_type: Some(JSON_TYPE@),
            body: payload,
        },
        Err(_) => ReplyView { status: STATUS_FAILED, content_type: None, body: FAILURE_BODY@ },
    }
}

/// What is noted of a request that has been handled. The address of the
/// caller is not known.
pub open spec fn handled_note(user_agent: Seq<char>, elapsed_ms: u128) -> Seq<char> {
    "Handled Spotify Token request from IP: unknown, UA: "@ + user_agent + " in "@ + decimal(
        elapsed_ms as nat,
    ) + "ms"@
}

pub open spec fn outcome_view(outcome: Result<String, FetchError>) -> Result<
    Seq<char>,
    FetchErrorView,
> {
    match outcome {
        Ok(payload) => Ok(payload@),
        Err(error) => Err(error@),
    }
}

/// Answers a request whose outcome is known, and notes in `journal` who asked
/// and how long it took.
pub fn handle_token(
    outcome: Result<String, FetchError>,
    user_agent: &str,
    elapsed_ms: u128,
    journal: &mut Vec<String>,
) -> (reply: Reply)
    ensures
        reply@ == reply_to(outcome_view(outcome)),
        logged(
            old(journal)@,
            final(journal)@,
            "info"@,
            seq![handled_note(user_agent@, elapsed_ms)],
        ),
{
    let mut note = String::from_str("Handled Spotify Token request from IP: unknown, UA: ");
    note.append(user_agent);
    note.append(" in ");
    append_decimal(&mut note, elapsed_ms);
    note.append("ms");
    let parts = [note.as_str()];
    assert(texts(parts@) == seq![note@]);
    logs(journal, "info", parts.as_slice());
    match outcome {
        Ok(payload) => Reply {
            status: STATUS_OK,
            content_type: Some(String::from_str(JSON_TYPE)),
            body: payload,
        },
        Err(_) => Reply {
            status: STATUS_FAILED,
            content_type: None,
            body: String::from_str(FAILURE_BODY),
        },
    }
}

} // verus!
