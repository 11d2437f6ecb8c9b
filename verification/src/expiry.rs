//! How long a credential may be served.
//!
//! A payload may name its own expiry: a JSON object whose member
//! `accessTokenExpirationTimestampMs` is an integer, the milliseconds since
//! the start of 1970 at which the credential ends. Anything else is treated as
//! short-lived rather than trusted for long.

use crate::json::{json_as_i64, json_member, json_parse, member, parse};
use vstd::prelude::*;

verus! {

/// Shortest lifetime, in milliseconds, that a credential is ever given.
pub const MIN_TTL_MS: u64 = 1000;

/// Lifetime, in milliseconds, of a credential whose payload names no expiry.
pub const DEFAULT_TTL_MS: u64 = 10000;

/// The member of a payload that names its expiry.
pub const EXPIRY_KEY: &'static str = "accessTokenExpirationTimestampMs";

/// The expiry a payload names: the integer under `EXPIRY_KEY`, where the
/// payload is JSON, has that member, and the member is an integer that fits
/// an `i64`. `None` in every other case.
pub open spec fn hint_of(payload: Seq<char>) -> Option<i64> {
    match json_parse(payload) {
        Some(doc) => match json_member(doc, EXPIRY_KEY@) {
            Some(field) => json_as_i64(field),
            None => None,
        },
        None => None,
    }
}

/// The lifetime granted to a credential: the distance from `wall_ms` to the
/// expiry it names, never less than `MIN_TTL_MS`; `DEFAULT_TTL_MS` where it
/// names none.
pub open spec fn ttl_ms(hint: Option<i64>, wall_ms: i64) -> int {
    match hint {
        Some(ts) => if ts - wall_ms > MIN_TTL_MS {
            ts - wall_ms
        } else {
            MIN_TTL_MS as int
        },
        None => DEFAULT_TTL_MS as int,
    }
}

/// The instant, on the clock that read `now`, after which a payload received
/// at `now` must no longer be served.
pub open spec fn expiry_of(payload: Seq<char>, now: u64, wall_ms: i64) -> int {
    now + ttl_ms(hint_of(payload), wall_ms)
}

/// Reads the expiry that a payload names.
pub fn expiry_hint(payload: &str) -> (hint: Option<i64>)
    ensures
        hint == hint_of(payload@),
{
    match parse(payload) {
        Ok(doc) => match member(&doc, EXPIRY_KEY) {
            Some(field) => field.as_i64(),
            None => None,
        },
        Err(_) => None,
    }
}

/// The lifetime in milliseconds of a credential that names the expiry `hint`
/// and is received when the wall clock reads `wall_ms`.
pub fn lifetime(hint: Option<i64>, wall_ms: i64) -> (ttl: u64)
    ensures
        ttl == ttl_ms(hint, wall_ms),
        ttl >= MIN_TTL_MS,
{
    match hint {
        Some(ts) => {
            let delta: i128 = ts as i128 - wall_ms as i128;
            if delta > MIN_TTL_MS as i128 {
                delta as u64
            } else {
                MIN_TTL_MS
            }
        },
        None => DEFAULT_TTL_MS,
    }
}

/// Derives the expiry of a payload received at `now`, the wall clock reading
/// `wall_ms`. Never fails: a payload that names no usable expiry gets the
/// default lifetime.
pub fn estimate_expiry(payload: &str, now: u64, wall_ms: i64) -> (expires_at: u128)
    ensures
        expires_at == expiry_of(payload@, now, wall_ms),
        expires_at >= now + MIN_TTL_MS,
{
    let ttl = lifetime(expiry_hint(payload), wall_ms);
    now as u128 + ttl as u128
}

/// A payload that names no usable expiry, because it is not JSON, or lacks the
/// member, or holds no integer there, expires `DEFAULT_TTL_MS` after it was
/// received.
pub proof fn lemma_fallback_ttl(payload: Seq<char>, now: u64, wall_ms: i64)
    requires
        json_parse(payload) is None || json_member(json_parse(payload)->0, EXPIRY_KEY@) is None
            || json_as_i64(json_member(json_parse(payload)->0, EXPIRY_KEY@)->0) is None,
    ensures
        hint_of(payload) is None,
        expiry_of(payload, now, wall_ms) == now + 10000,
{
}

/// A lifetime is never shorter than `MIN_TTL_MS`, and is exactly that when
/// the named expiry lies in the past or less than `MIN_TTL_MS` ahead.
pub proof fn lemma_floor_clamp(hint: Option<i64>, wall_ms: i64)
    ensures
        ttl_ms(hint, wall_ms) >= 1000,
        hint is Some && hint->0 - wall_ms <= 1000 ==> ttl_ms(hint, wall_ms) == 1000,
        hint is Some && hint->0 - wall_ms > 1000 ==> ttl_ms(hint, wall_ms) == hint->0 - wall_ms,
{
}

} // verus!
