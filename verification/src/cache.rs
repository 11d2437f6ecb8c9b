//! The cache and the decisions it takes.
//!
//! A caller goes through the cache in steps. It reports what has happened to
//! it (an `Event`), the cache answers with what to do next (an `Action`), and
//! the caller does that outside the library: it waits for the permit, invokes
//! the source, or returns. There is one permit, and only its holder may invoke
//! the source. Each step runs with the cache held exclusively, so
//! steps of different callers interleave but never overlap.

use crate::clock::{millis_since, monotonic_now, to_instant, wall_clock_millis};
use crate::expiry::{estimate_expiry, expiry_of};
use crate::logger::{logged, logs, texts};
use vstd::prelude::*;
use vstd::string::StringExecFns;

verus! {

/// How long after a credential's expiry its invalidation is due, in
/// milliseconds.
pub const SAFETY_MARGIN_MS: u64 = 100;

/// A credential as the cache holds it: the payload as the source gave it, and
/// the instant after which it must not be served. Instants are milliseconds
/// on the cache's monotonic clock.
#[derive(Clone, Debug, PartialEq, Eq)]
pub struct SpotifyToken {
    pub value: String,
    pub expires_at: u128,
}

pub struct SpotifyTokenView {
    pub value: Seq<char>,
    pub expires_at: int,
}

impl View for SpotifyToken {
    type V = SpotifyTokenView;

    open spec fn view(&self) -> SpotifyTokenView {
        SpotifyTokenView { value: self.value@, expires_at: self.expires_at as int }
    }
}

/// Why a caller got no credential.
#[derive(Debug, PartialEq, Eq)]
pub enum FetchError {
    /// The source failed, for the reason it gave.
    FetchFailed(String),
    /// The permit could not be acquired at all.
    CoordinationFailed,
}

pub enum FetchErrorView {
    FetchFailed(Seq<char>),
    CoordinationFailed,
}

impl View for FetchError {
    type V = FetchErrorView;

    open spec fn view(&self) -> FetchErrorView {
        match self {
            FetchError::FetchFailed(reason) => FetchErrorView::FetchFailed(reason@),
            FetchError::CoordinationFailed => FetchErrorView::CoordinationFailed,
        }
    }
}

impl FetchErrorView {
    /// The error as one string: the source's reason unchanged, or
    /// `Semaphore error` for the permit.
    pub open spec fn message(self) -> Seq<char> {
        match self {
            FetchErrorView::FetchFailed(reason) => reason,
            FetchErrorView::CoordinationFailed => "Semaphore error"@,
        }
    }
}

impl FetchError {
    /// The error as one string.
    pub fn message(&self) -> (text: String)
        ensures
            text@ == self@.message(),
    {
        match self {
            FetchError::FetchFailed(reason) => reason.clone(),
            FetchError::CoordinationFailed => String::from_str("Semaphore error"),
        }
    }
}

/// The order to forget one generation of the credential. A generation is one
/// stored credential, known by its expiry instant.
#[derive(Clone, Copy, Debug, PartialEq, Eq)]
pub struct Invalidation {
    /// The expiry instant of the credential to forget.
    pub generation: u128,
    /// The instant at which to forget it.
    pub due: u128,
}

impl Invalidation {
    /// How long to wait from `now` until the invalidation is due, in
    /// milliseconds: nothing once it is due, and no more than fits.
    pub open spec fn wait_from(self, now: u64) -> int {
        if self.due <= now {
            0
        } else if self.due - now > u64::MAX {
            u64::MAX as int
        } else {
            self.due - now
        }
    }

    /// How long to wait from `now` until the invalidation is due.
    pub fn delay_from(&self, now: u64) -> (delay: u64)
        ensures
            delay == self.wait_from(now),
    {
        if self.due <= now as u128 {
            0
        } else if self.due - now as u128 > u64::MAX as u128 {
            u64::MAX
        } else {
            (self.due - now as u128) as u64
        }
    }
}

/// What has happened to a caller.
#[derive(Debug, PartialEq, Eq)]
pub enum Event {
    /// It asks for the credential.
    Request,
    /// It has been given the permit.
    Admitted,
    /// The permit could not be acquired.
    Refused,
    /// It invoked the source, which gave a payload or a reason for failing.
    Fetched(Result<String, String>),
}

pub enum EventView {
    Request,
    Admitted,
    Refused,
    Fetched(Result<Seq<char>, Seq<char>>),
}

impl View for Event {
    type V = EventView;

    open spec fn view(&self) -> EventView {
        match self {
            Event::Request => EventView::Request,
            Event::Admitted => EventView::Admitted,
            Event::Refused => EventView::Refused,
            Event::Fetched(Ok(payload)) => EventView::Fetched(Ok(payload@)),
            Event::Fetched(Err(reason)) => EventView::Fetched(Err(reason@)),
        }
    }
}

/// What a caller is to do next.
#[derive(Debug, PartialEq, Eq)]
pub enum Action {
    /// Return this outcome, giving the permit back if it is held.
    Respond(Result<String, FetchError>),
    /// Wait for the permit, then report `Admitted` or `Refused`.
    AwaitPermit,
    /// Invoke the source, still holding the permit, then report `Fetched`.
    Fetch,
    /// A fresh credential was stored: arm its invalidation, then return the
    /// payload, giving the permit back.
    ArmAndRespond(String, Invalidation),
}

pub enum ActionView {
    Respond(Result<Seq<char>, FetchErrorView>),
    AwaitPermit,
    Fetch,
    ArmAndRespond(Seq<char>, Invalidation),
}

impl View for Action {
    type V = ActionView;

    open spec fn view(&self) -> ActionView {
        match self {
            Action::Respond(Ok(value)) => ActionView::Respond(Ok(value@)),
            Action::Respond(Err(error)) => ActionView::Respond(Err(error@)),
            Action::AwaitPermit => ActionView::AwaitPermit,
            Action::Fetch => ActionView::Fetch,
            Action::ArmAndRespond(value, invalidation) => ActionView::ArmAndRespond(
                value@,
                *invalidation,
            ),
        }
    }
}

impl ActionView {
    /// The credential that the action hands to the caller, if it hands one.
    pub open spec fn served(self) -> Option<Seq<char>> {
        match self {
            ActionView::Respond(Ok(value)) => Some(value),
            ActionView::ArmAndRespond(value, _) => Some(value),
            _ => None,
        }
    }
}

/// The value that a slot may serve at `now`: the one it holds, as long as its
/// expiry lies strictly ahead.
pub open spec fn fresh(slot: Option<SpotifyTokenView>, now: u64) -> Option<Seq<char>> {
    match slot {
        Some(token) => if token.expires_at > now {
            Some(token.value)
        } else {
            None
        },
        None => None,
    }
}

/// The credential that a payload received at `now` is stored as.
pub open spec fn stored(payload: Seq<char>, now: u64, wall_ms: i64) -> SpotifyTokenView {
    SpotifyTokenView { value: payload, expires_at: expiry_of(payload, now, wall_ms) }
}

/// The invalidation that belongs to a stored credential.
pub open spec fn invalidation_of(token: SpotifyTokenView) -> Invalidation {
    Invalidation {
        generation: token.expires_at as u128,
        due: (token.expires_at + SAFETY_MARGIN_MS) as u128,
    }
}

/// One step of a caller: the slot afterwards, and what the caller does next.
///
/// A request is served from the slot while that is fresh, and sent to wait
/// for the permit otherwise. With the permit the slot is read again: another caller may
/// have filled it meanwhile, and only if it is still stale does this caller
/// fetch. A payload is stored in place of whatever the slot held. A failure
/// leaves the slot as it was and reaches this caller alone.
pub open spec fn transition(
    slot: Option<SpotifyTokenView>,
    event: EventView,
    now: u64,
    wall_ms: i64,
) -> (Option<SpotifyTokenView>, ActionView) {
    match event {
        EventView::Request => match fresh(slot, now) {
            Some(value) => (slot, ActionView::Respond(Ok(value))),
            None => (slot, ActionView::AwaitPermit),
        },
        EventView::Admitted => match fresh(slot, now) {
            Some(value) => (slot, ActionView::Respond(Ok(value))),
            None => (slot, ActionView::Fetch),
        },
        EventView::Refused => (
            slot,
            ActionView::Respond(Err(FetchErrorView::CoordinationFailed)),
        ),
        EventView::Fetched(Ok(payload)) => {
            let token = stored(payload, now, wall_ms);
            (Some(token), ActionView::ArmAndRespond(payload, invalidation_of(token)))
        },
        EventView::Fetched(Err(reason)) => (
            slot,
            ActionView::Respond(Err(FetchErrorView::FetchFailed(reason))),
        ),
    }
}

/// A step was taken at some reading of the clocks: it led from `before` to
/// `after` and `action`, and whatever `action` hands to the caller is what
/// `after` holds, with its expiry strictly ahead of that reading.
pub open spec fn stepped(
    before: Option<SpotifyTokenView>,
    event: EventView,
    after: Option<SpotifyTokenView>,
    action: ActionView,
) -> bool {
    exists|now: u64, wall_ms: i64|
        {
            &&& (after, action) == #[trigger] transition(before, event, now, wall_ms)
            &&& action.served() is Some ==> fresh(after, now) == action.served()
        }
}

/// What the warm-up notes of an action: level and text. It notes the outcome
/// once the caller's part is over, and nothing before.
pub open spec fn warm_up_note(action: ActionView) -> Option<(Seq<char>, Seq<char>)> {
    match action {
        ActionView::Respond(Ok(_)) => Some(("info"@, "Initial Spotify token fetched"@)),
        ActionView::ArmAndRespond(_, _) => Some(("info"@, "Initial Spotify token fetched"@)),
        ActionView::Respond(Err(error)) => Some(
            ("error"@, "Failed to fetch initial Spotify token: "@ + error.message()),
        ),
        _ => None,
    }
}

/// The slot once the invalidation of `generation` has fired: empty if it held
/// that generation, untouched if it held another or none.
pub open spec fn invalidated(slot: Option<SpotifyTokenView>, generation: int) -> Option<
    SpotifyTokenView,
> {
    match slot {
        Some(token) => if token.expires_at == generation {
            None
        } else {
            slot
        },
        None => None,
    }
}

/// The cache: one slot that holds the current credential or nothing, and the
/// origin of the monotonic clock by which expiry is told.
pub struct SpotifyTokenHandler {
    cached_token: Option<SpotifyToken>,
    origin: tokio::time::Instant,
}

impl View for SpotifyTokenHandler {
    type V = Option<SpotifyTokenView>;

    closed spec fn view(&self) -> Option<SpotifyTokenView> {
        match self.cached_token {
            Some(token) => Some(token@),
            None => None,
        }
    }
}

impl SpotifyTokenHandler {
    /// A cold cache, whose clock starts now.
    pub fn new() -> (handler: Self)
        ensures
            handler@ is None,
    {
        SpotifyTokenHandler { cached_token: None, origin: monotonic_now() }
    }

    /// The milliseconds that the cache's clock shows: what has passed since
    /// the cache was made, as `to_instant` has it. Nothing is known of the
    /// reading beforehand.
    pub fn now(&self) -> u64 {
        to_instant(millis_since(&self.origin))
    }

    /// A copy of what the slot holds.
    pub fn cached(&self) -> (copy: Option<SpotifyToken>)
        ensures
            match copy {
                Some(token) => self@ == Some(token@),
                None => self@ is None,
            },
    {
        match &self.cached_token {
            Some(token) => Some(
                SpotifyToken { value: token.value.clone(), expires_at: token.expires_at },
            ),
            None => None,
        }
    }

    /// The credential that may be served at `now`, if the slot holds one.
    pub fn lookup(&self, now: u64) -> (value: Option<String>)
        ensures
            match value {
                Some(text) => fresh(self@, now) == Some(text@),
                None => fresh(self@, now) is None,
            },
    {
        match &self.cached_token {
            Some(token) => {
                if token.expires_at > now as u128 {
                    Some(token.value.clone())
                } else {
                    None
                }
            },
            None => None,
        }
    }

    /// Takes one step of a caller at the instant `now`, the wall clock
    /// reading `wall_ms`.
    ///
    /// Whatever is handed to the caller is what the slot holds after the step,
    /// and its expiry lies strictly ahead of `now`.
    pub fn get_access_token_at(&mut self, event: Event, now: u64, wall_ms: i64) -> (action: Action)
        ensures
            (final(self)@, action@) == transition(old(self)@, event@, now, wall_ms),
            action@.served() is Some ==> fresh(final(self)@, now) == action@.served(),
    {
        match event {
            Event::Request => match self.lookup(now) {
                Some(value) => Action::Respond(Ok(value)),
                None => Action::AwaitPermit,
            },
            Event::Admitted => match self.lookup(now) {
                Some(value) => Action::Respond(Ok(value)),
                None => Action::Fetch,
            },
            Event::Refused => Action::Respond(Err(FetchError::CoordinationFailed)),
            Event::Fetched(Ok(payload)) => {
                let expires_at = estimate_expiry(payload.as_str(), now, wall_ms);
                self.cached_token = Some(SpotifyToken { value: payload.clone(), expires_at });
                Action::ArmAndRespond(
                    payload,
                    Invalidation {
                        generation: expires_at,
                        due: expires_at + SAFETY_MARGIN_MS as u128,
                    },
                )
            },
            Event::Fetched(Err(reason)) => Action::Respond(Err(FetchError::FetchFailed(reason))),
        }
    }

    /// Takes one step of a caller, at the instant that the clocks show.
    pub fn get_access_token(&mut self, event: Event) -> (action: Action)
        ensures
            stepped(old(self)@, event@, final(self)@, action@),
    {
        let now = self.now();
        let wall_ms = wall_clock_millis();
        self.get_access_token_at(event, now, wall_ms)
    }

    /// Takes one step of the warm-up fetch with which a program starts. The
    /// step is that of any caller. The outcome, once there is one, is noted in
    /// `journal` and handed on all the same.
    pub fn init(&mut self, event: Event, journal: &mut Vec<String>) -> (action: Action)
        ensures
            stepped(old(self)@, event@, final(self)@, action@),
            match warm_up_note(action@) {
                Some((level, text)) => logged(old(journal)@, final(journal)@, level, seq![text]),
                None => final(journal)@ == old(journal)@,
            },
    {
        let action = self.get_access_token(event);
        match &action {
            Action::Respond(Ok(_)) => {
                let parts = ["Initial Spotify token fetched"];
                assert(texts(parts@) == seq!["Initial Spotify token fetched"@]);
                logs(journal, "info", parts.as_slice());
            },
            Action::ArmAndRespond(_, _) => {
                let parts = ["Initial Spotify token fetched"];
                assert(texts(parts@) == seq!["Initial Spotify token fetched"@]);
                logs(journal, "info", parts.as_slice());
            },
            Action::Respond(Err(error)) => {
                let mut text = String::from_str("Failed to fetch initial Spotify token: ");
                let reason = error.message();
                text.append(reason.as_str());
                let parts = [text.as_str()];
                assert(texts(parts@) == seq![text@]);
                logs(journal, "error", parts.as_slice());
            },
            _ => {},
        }
        action
    }

    /// Fires the invalidation of `generation`: empties the slot if it still
    /// holds that generation and leaves it alone otherwise. Says whether it
    /// emptied the slot.
    pub fn invalidate(&mut self, generation: u128) -> (cleared: bool)
        ensures
            final(self)@ == invalidated(old(self)@, generation as int),
            cleared == (old(self)@ is Some && old(self)@->0.expires_at == generation),
    {
        let held = match &self.cached_token {
            Some(token) => token.expires_at == generation,
            None => false,
        };
        if held {
            self.cached_token = None;
        }
        held
    }
}

} // verus!
