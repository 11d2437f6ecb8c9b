//! The source of the credential, as far as it decides anything.
//!
//! The credential is taken from the answers that a browser gets while it
//! loads the player's page. The browser is driven outside the library. What
//! it sees is reported here as a `SourceEvent`, and `extract_token` says what
//! to do about it: which answer carries the credential, how its body becomes
//! the payload, and how each way of failing is worded.

use crate::json::{json_is_object, json_parse, json_text, json_without, parse, remove_member, text_of};
use crate::text::{base64_decode, base64_decoded, contains, occurs_in, string_from_utf8};
use vstd::prelude::*;
use vstd::string::StringExecFns;
use vstd::utf8::{decode_utf8, valid_utf8};

verus! {

/// The part of an address that marks the answer which carries the credential.
pub const TOKEN_PATH: &'static str = "/api/token";

/// The member that is taken out of a payload before it is handed on.
pub const NOTES_KEY: &'static str = "_notes";

/// How long to let an answer settle before its body is read, in
/// milliseconds.
pub const SETTLE_MS: u64 = 200;

/// How long to wait for the answer that carries the credential, in seconds.
pub const PATIENCE_SECS: u64 = 20;

/// What the browser was doing when it failed.
#[derive(Clone, Copy, Debug, PartialEq, Eq)]
pub enum Stage {
    Config,
    Launch,
    Page,
    Network,
    Listener,
    Navigation,
}

impl Stage {
    /// How a failure at this stage begins.
    pub open spec fn label(self) -> Seq<char> {
        match self {
            Stage::Config => "Browser config error: "@,
            Stage::Launch => "Browser launch error: "@,
            Stage::Page => "Page creation error: "@,
            Stage::Network => "Network enable error: "@,
            Stage::Listener => "Event listener error: "@,
            Stage::Navigation => "Navigation error: "@,
        }
    }
}

/// What the browser reports.
#[derive(Debug, PartialEq, Eq)]
pub enum SourceEvent {
    /// It failed at a stage before any answer came, for the reason given.
    Failed(Stage, String),
    /// An answer came from this address.
    ResponseSeen(String),
    /// The body of an answer was read: its text, and whether that text is
    /// the body in base64.
    BodyRead(String, bool),
    /// The body of an answer could not be read.
    BodyUnavailable,
    /// No more answers will come.
    StreamEnded,
    /// The time for waiting is over.
    TimedOut,
}

pub enum SourceEventView {
    Failed(Stage, Seq<char>),
    ResponseSeen(Seq<char>),
    BodyRead(Seq<char>, bool),
    BodyUnavailable,
    StreamEnded,
    TimedOut,
}

impl View for SourceEvent {
    type V = SourceEventView;

    open spec fn view(&self) -> SourceEventView {
        match self {
            SourceEvent::Failed(stage, reason) => SourceEventView::Failed(*stage, reason@),
            SourceEvent::ResponseSeen(url) => SourceEventView::ResponseSeen(url@),
            SourceEvent::BodyRead(body, encoded) => SourceEventView::BodyRead(body@, *encoded),
            SourceEvent::BodyUnavailable => SourceEventView::BodyUnavailable,
            SourceEvent::StreamEnded => SourceEventView::StreamEnded,
            SourceEvent::TimedOut => SourceEventView::TimedOut,
        }
    }
}

/// What to do about a report.
#[derive(Debug, PartialEq, Eq)]
pub enum SourceAction {
    /// Nothing: go on to the next answer.
    Skip,
    /// Let the answer settle for `SETTLE_MS`, then read its body.
    ReadBody,
    /// Close the browser and end with this outcome.
    Finish(Result<String, String>),
}

pub enum SourceActionView {
    Skip,
    ReadBody,
    Finish(Result<Seq<char>, Seq<char>>),
}

impl View for SourceAction {
    type V = SourceActionView;

    open spec fn view(&self) -> SourceActionView {
        match self {
            SourceAction::Skip => SourceActionView::Skip,
            SourceAction::ReadBody => SourceActionView::ReadBody,
            SourceAction::Finish(Ok(payload)) => SourceActionView::Finish(Ok(payload@)),
            SourceAction::Finish(Err(reason)) => SourceActionView::Finish(Err(reason@)),
        }
    }
}

/// The text of a body: the body itself, or, where it came in base64, what it
/// decodes to, provided that is UTF-8.
pub open spec fn body_text(body: Seq<char>, base64_encoded: bool) -> Option<Seq<char>> {
    if base64_encoded {
        match base64_decoded(body) {
            Some(bytes) => if valid_utf8(bytes) {
                Some(decode_utf8(bytes))
            } else {
                None
            },
            None => None,
        }
    } else {
        Some(body)
    }
}

/// The payload made of a body's text: a JSON object is written anew without
/// its member `_notes`; any other text is the payload as it stands.
pub open spec fn payload_of(text: Seq<char>) -> Seq<char> {
    match json_parse(text) {
        Some(doc) => if json_is_object(doc) {
            json_text(json_without(doc, NOTES_KEY@))
        } else {
            text
        },
        None => text,
    }
}

/// What `extract_token` answers to each report.
pub open spec fn source_step(event: SourceEventView) -> SourceActionView {
    match event {
        SourceEventView::Failed(stage, reason) => SourceActionView::Finish(
            Err(stage.label() + reason),
        ),
        SourceEventView::ResponseSeen(url) => if occurs_in(TOKEN_PATH@, url) {
            SourceActionView::ReadBody
        } else {
            SourceActionView::Skip
        },
        SourceEventView::BodyRead(body, base64_encoded) => match body_text(body, base64_encoded) {
            Some(text) => SourceActionView::Finish(Ok(payload_of(text))),
            None => SourceActionView::Skip,
        },
        SourceEventView::BodyUnavailable => SourceActionView::Skip,
        SourceEventView::StreamEnded => SourceActionView::Finish(Err("No token response found"@)),
        SourceEventView::TimedOut => SourceActionView::Finish(
            Err("Timeout waiting for token response"@),
        ),
    }
}

/// Whether an answer from this address carries the credential.
pub fn is_token_response(url: &str) -> (r: bool)
    ensures
        r == occurs_in(TOKEN_PATH@, url@),
{
    contains(url, TOKEN_PATH)
}

/// The text of a body, if it has one.
pub fn decode_body(body: String, base64_encoded: bool) -> (text: Option<String>)
    ensures
        match text {
            Some(text) => body_text(body@, base64_encoded) == Some(text@),
            None => body_text(body@, base64_encoded) is None,
        },
{
    if base64_encoded {
        match base64_decode(body.as_str()) {
            Ok(bytes) => string_from_utf8(bytes),
            Err(_) => None,
        }
    } else {
        Some(body)
    }
}

/// Makes the payload of a body's text.
pub fn strip_notes(text: String) -> (payload: String)
    ensures
        payload@ == payload_of(text@),
{
    match parse(text.as_str()) {
        Ok(doc) => {
            if doc.is_object() {
                let mut doc = doc;
                remove_member(&mut doc, NOTES_KEY);
                text_of(&doc)
            } else {
                text
            }
        },
        Err(_) => text,
    }
}

/// How a failure at `stage` for `reason` is worded.
pub fn failure_message(stage: Stage, reason: &str) -> (message: String)
    ensures
        message@ == stage.label() + reason@,
{
    let label = match stage {
        Stage::Config => "Browser config error: ",
        Stage::Launch => "Browser launch error: ",
        Stage::Page => "Page creation error: ",
        Stage::Network => "Network enable error: ",
        Stage::Listener => "Event listener error: ",
        Stage::Navigation => "Navigation error: ",
    };
    let mut message = String::from_str(label);
    message.append(reason);
    message
}

/// Says what to do about a report of the browser.
pub fn extract_token(event: SourceEvent) -> (action: SourceAction)
    ensures
        action@ == source_step(event@),
{
    match event {
        SourceEvent::Failed(stage, reason) => SourceAction::Finish(
            Err(failure_message(stage, reason.as_str())),
        ),
        SourceEvent::ResponseSeen(url) => {
            if is_token_response(url.as_str()) {
                SourceAction::ReadBody
            } else {
                SourceAction::Skip
            }
        },
        SourceEvent::BodyRead(body, base64_encoded) => match decode_body(body, base64_encoded) {
            Some(text) => SourceAction::Finish(Ok(strip_notes(text))),
            None => SourceAction::Skip,
        },
        SourceEvent::BodyUnavailable => SourceAction::Skip,
        SourceEvent::StreamEnded => SourceAction::Finish(
            Err(String::from_str("No token response found")),
        ),
        SourceEvent::TimedOut => SourceAction::Finish(
            Err(String::from_str("Timeout waiting for token response")),
        ),
    }
}

} // verus!
