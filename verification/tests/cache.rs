use spotify_token::cache::{
    Action, Event, FetchError, Invalidation, SpotifyToken, SpotifyTokenHandler, SAFETY_MARGIN_MS,
};

const WALL: i64 = 1_700_000_000_000;

fn payload_expiring_in(ms: i64) -> String {
    format!("{{\"accessToken\":\"abc\",\"accessTokenExpirationTimestampMs\":{}}}", WALL + ms)
}

fn fill(handler: &mut SpotifyTokenHandler, payload: &str, now: u64) -> Invalidation {
    match handler.get_access_token_at(Event::Fetched(Ok(payload.to_string())), now, WALL) {
        Action::ArmAndRespond(value, invalidation) => {
            assert_eq!(value, payload);
            invalidation
        }
        other => panic!("a payload must be stored, got {:?}", other),
    }
}

#[test]
fn new_cache_is_cold() {
    let handler = SpotifyTokenHandler::new();
    assert_eq!(handler.cached(), None);
    assert_eq!(handler.lookup(0), None);
}

#[test]
fn cold_cache_sends_caller_to_wait_then_to_source() {
    let mut handler = SpotifyTokenHandler::new();
    assert_eq!(handler.get_access_token_at(Event::Request, 0, WALL), Action::AwaitPermit);
    assert_eq!(handler.get_access_token_at(Event::Admitted, 0, WALL), Action::Fetch);
    assert_eq!(handler.cached(), None);
}

#[test]
fn second_call_within_lifetime_is_served_from_cache() {
    let mut handler = SpotifyTokenHandler::new();
    let payload = payload_expiring_in(5000);
    assert_eq!(handler.get_access_token_at(Event::Request, 10, WALL), Action::AwaitPermit);
    assert_eq!(handler.get_access_token_at(Event::Admitted, 10, WALL), Action::Fetch);
    assert_eq!(
        handler.get_access_token_at(Event::Fetched(Ok(payload.clone())), 10, WALL),
        Action::ArmAndRespond(payload.clone(), Invalidation { generation: 5010, due: 5110 })
    );
    assert_eq!(
        handler.cached(),
        Some(SpotifyToken { value: payload.clone(), expires_at: 5010 })
    );
    assert_eq!(
        handler.get_access_token_at(Event::Request, 11, WALL + 1),
        Action::Respond(Ok(payload.clone()))
    );
    assert_eq!(
        handler.get_access_token_at(Event::Request, 5009, WALL + 4999),
        Action::Respond(Ok(payload))
    );
}

#[test]
fn call_after_expiry_fetches_again() {
    let mut handler = SpotifyTokenHandler::new();
    let payload = payload_expiring_in(5000);
    let invalidation = fill(&mut handler, &payload, 0);
    assert_eq!(invalidation, Invalidation { generation: 5000, due: 5100 });
    assert!(handler.invalidate(invalidation.generation));
    assert_eq!(handler.cached(), None);
    assert_eq!(handler.get_access_token_at(Event::Request, 5100, WALL + 5100), Action::AwaitPermit);
    assert_eq!(handler.get_access_token_at(Event::Admitted, 5100, WALL + 5100), Action::Fetch);
}

#[test]
fn expired_credential_is_not_served_even_before_its_invalidation_fires() {
    let mut handler = SpotifyTokenHandler::new();
    let payload = payload_expiring_in(5000);
    fill(&mut handler, &payload, 0);
    assert_eq!(handler.lookup(4999), Some(payload.clone()));
    assert_eq!(handler.lookup(5000), None);
    assert_eq!(handler.get_access_token_at(Event::Request, 5000, WALL), Action::AwaitPermit);
    assert_eq!(handler.get_access_token_at(Event::Admitted, 5050, WALL), Action::Fetch);
    assert_eq!(handler.get_access_token_at(Event::Request, u64::MAX, WALL), Action::AwaitPermit);
}

#[test]
fn failure_then_success_on_the_next_call() {
    let mut handler = SpotifyTokenHandler::new();
    assert_eq!(handler.get_access_token_at(Event::Request, 0, WALL), Action::AwaitPermit);
    assert_eq!(handler.get_access_token_at(Event::Admitted, 0, WALL), Action::Fetch);
    assert_eq!(
        handler.get_access_token_at(Event::Fetched(Err("boom".to_string())), 30, WALL),
        Action::Respond(Err(FetchError::FetchFailed("boom".to_string())))
    );
    assert_eq!(handler.cached(), None);
    assert_eq!(handler.get_access_token_at(Event::Request, 31, WALL), Action::AwaitPermit);
    assert_eq!(handler.get_access_token_at(Event::Admitted, 31, WALL), Action::Fetch);
    let payload = payload_expiring_in(5000);
    fill(&mut handler, &payload, 40);
    for now in [40u64, 41, 1000, 5039] {
        assert_eq!(
            handler.get_access_token_at(Event::Request, now, WALL),
            Action::Respond(Ok(payload.clone()))
        );
    }
}

#[test]
fn failure_leaves_a_held_credential_alone() {
    let mut handler = SpotifyTokenHandler::new();
    let payload = payload_expiring_in(5000);
    fill(&mut handler, &payload, 0);
    assert_eq!(
        handler.get_access_token_at(Event::Fetched(Err("late".to_string())), 6000, WALL),
        Action::Respond(Err(FetchError::FetchFailed("late".to_string())))
    );
    assert_eq!(handler.cached(), Some(SpotifyToken { value: payload, expires_at: 5000 }));
}

#[test]
fn single_flight_for_three_callers() {
    let mut handler = SpotifyTokenHandler::new();
    let payload = payload_expiring_in(5000);
    let mut fetches = 0;
    for _ in 0..3 {
        assert_eq!(handler.get_access_token_at(Event::Request, 0, WALL), Action::AwaitPermit);
    }
    let mut outcomes: Vec<String> = Vec::new();
    for caller in 0..3u64 {
        match handler.get_access_token_at(Event::Admitted, 100 + caller, WALL) {
            Action::Fetch => {
                fetches += 1;
                match handler.get_access_token_at(Event::Fetched(Ok(payload.clone())), 200, WALL) {
                    Action::ArmAndRespond(value, _) => outcomes.push(value),
                    other => panic!("unexpected {:?}", other),
                }
            }
            Action::Respond(Ok(value)) => outcomes.push(value),
            other => panic!("unexpected {:?}", other),
        }
    }
    assert_eq!(fetches, 1);
    assert_eq!(outcomes, vec![payload.clone(), payload.clone(), payload]);
}

#[test]
fn refused_permit_is_a_coordination_failure() {
    let mut handler = SpotifyTokenHandler::new();
    assert_eq!(
        handler.get_access_token_at(Event::Refused, 0, WALL),
        Action::Respond(Err(FetchError::CoordinationFailed))
    );
    assert_eq!(handler.cached(), None);
}

#[test]
fn error_messages() {
    assert_eq!(FetchError::CoordinationFailed.message(), "Semaphore error");
    assert_eq!(FetchError::FetchFailed("No token response found".to_string()).message(), "No token response found");
    assert_eq!(FetchError::FetchFailed(String::new()).message(), "");
}

#[test]
fn stale_invalidation_spares_newer_generation() {
    let mut handler = SpotifyTokenHandler::new();
    let first = payload_expiring_in(5000);
    let older = fill(&mut handler, &first, 0);
    assert_eq!(handler.get_access_token_at(Event::Admitted, 5050, WALL + 5050), Action::Fetch);
    let second = payload_expiring_in(12000);
    let newer = fill(&mut handler, &second, 5060);
    assert_eq!(newer, Invalidation { generation: 17060, due: 17160 });
    assert!(!handler.invalidate(older.generation));
    assert_eq!(handler.cached(), Some(SpotifyToken { value: second.clone(), expires_at: 17060 }));
    assert_eq!(handler.lookup(5100), Some(second));
    assert!(handler.invalidate(newer.generation));
    assert_eq!(handler.cached(), None);
    assert!(!handler.invalidate(newer.generation));
}

#[test]
fn invalidation_of_empty_slot_is_a_no_op() {
    let mut handler = SpotifyTokenHandler::new();
    assert!(!handler.invalidate(0));
    assert!(!handler.invalidate(5000));
    assert_eq!(handler.cached(), None);
}

#[test]
fn unparseable_payload_is_cached_for_the_default_time() {
    let mut handler = SpotifyTokenHandler::new();
    let invalidation = fill(&mut handler, "opaque-token", 500);
    assert_eq!(invalidation, Invalidation { generation: 10500, due: 10600 });
    assert_eq!(handler.lookup(10499), Some("opaque-token".to_string()));
    assert_eq!(handler.lookup(10500), None);
}

#[test]
fn payload_expiring_in_the_past_is_cached_for_the_floor() {
    let mut handler = SpotifyTokenHandler::new();
    let payload = payload_expiring_in(-60000);
    let invalidation = fill(&mut handler, &payload, 500);
    assert_eq!(invalidation, Invalidation { generation: 1500, due: 1600 });
    assert_eq!(handler.lookup(1499), Some(payload));
    assert_eq!(handler.lookup(1500), None);
}

#[test]
fn new_payload_replaces_the_old_one() {
    let mut handler = SpotifyTokenHandler::new();
    fill(&mut handler, "one", 0);
    fill(&mut handler, "two", 1);
    assert_eq!(handler.cached(), Some(SpotifyToken { value: "two".to_string(), expires_at: 10001 }));
}

#[test]
fn safety_margin_is_a_tenth_of_a_second() {
    assert_eq!(SAFETY_MARGIN_MS, 100);
}

#[test]
fn delay_until_invalidation_is_due() {
    let invalidation = Invalidation { generation: 5000, due: 5100 };
    assert_eq!(invalidation.delay_from(0), 5100);
    assert_eq!(invalidation.delay_from(5099), 1);
    assert_eq!(invalidation.delay_from(5100), 0);
    assert_eq!(invalidation.delay_from(9000), 0);
    let far = Invalidation { generation: u64::MAX as u128 + 5, due: u64::MAX as u128 + 105 };
    assert_eq!(far.delay_from(0), u64::MAX);
    assert_eq!(far.delay_from(105), u64::MAX);
    assert_eq!(far.delay_from(106), u64::MAX - 1);
}

#[test]
fn steps_by_the_clock() {
    let mut handler = SpotifyTokenHandler::new();
    assert_eq!(handler.get_access_token(Event::Request), Action::AwaitPermit);
    assert_eq!(handler.get_access_token(Event::Admitted), Action::Fetch);
    let before = handler.now();
    let invalidation = match handler.get_access_token(Event::Fetched(Ok("opaque".to_string()))) {
        Action::ArmAndRespond(value, invalidation) => {
            assert_eq!(value, "opaque");
            invalidation
        }
        other => panic!("unexpected {:?}", other),
    };
    let after = handler.now();
    assert!(invalidation.generation >= before as u128 + 10000);
    assert!(invalidation.generation <= after as u128 + 10000);
    assert_eq!(invalidation.due, invalidation.generation + 100);
    assert_eq!(handler.get_access_token(Event::Request), Action::Respond(Ok("opaque".to_string())));
    assert_eq!(
        handler.get_access_token(Event::Refused),
        Action::Respond(Err(FetchError::CoordinationFailed))
    );
}

#[test]
fn clock_starts_with_the_cache() {
    let handler = SpotifyTokenHandler::new();
    let first = handler.now();
    let second = handler.now();
    assert!(first <= second);
    assert!(second < 60_000);
}

#[test]
fn warm_up_notes_success() {
    let mut handler = SpotifyTokenHandler::new();
    let mut journal: Vec<String> = Vec::new();
    assert_eq!(handler.init(Event::Request, &mut journal), Action::AwaitPermit);
    assert_eq!(handler.init(Event::Admitted, &mut journal), Action::Fetch);
    assert!(journal.is_empty());
    match handler.init(Event::Fetched(Ok("opaque".to_string())), &mut journal) {
        Action::ArmAndRespond(value, _) => assert_eq!(value, "opaque"),
        other => panic!("unexpected {:?}", other),
    }
    assert_eq!(journal.len(), 1);
    assert!(journal[0].starts_with("\x1b[34m\x1b[1m[INFO]\x1b[0m \x1b[90m["));
    assert!(journal[0].ends_with("]\x1b[0m Initial Spotify token fetched"));
    assert_eq!(
        handler.init(Event::Request, &mut journal),
        Action::Respond(Ok("opaque".to_string()))
    );
    assert_eq!(journal.len(), 2);
    assert!(journal[1].ends_with("]\x1b[0m Initial Spotify token fetched"));
}

#[test]
fn warm_up_notes_failure_and_hands_it_on() {
    let mut handler = SpotifyTokenHandler::new();
    let mut journal: Vec<String> = Vec::new();
    assert_eq!(
        handler.init(Event::Fetched(Err("Timeout waiting for token response".to_string())), &mut journal),
        Action::Respond(Err(FetchError::FetchFailed("Timeout waiting for token response".to_string())))
    );
    assert_eq!(handler.cached(), None);
    assert_eq!(journal.len(), 1);
    assert!(journal[0].starts_with("\x1b[31m\x1b[1m[ERROR]\x1b[0m \x1b[90m["));
    assert!(journal[0].ends_with(
        "]\x1b[0m Failed to fetch initial Spotify token: Timeout waiting for token response"
    ));
    assert_eq!(
        handler.init(Event::Refused, &mut journal),
        Action::Respond(Err(FetchError::CoordinationFailed))
    );
    assert_eq!(journal.len(), 2);
    assert!(journal[1].ends_with("]\x1b[0m Failed to fetch initial Spotify token: Semaphore error"));
}
