use spotify_token::clock::to_instant;

#[test]
fn span_becomes_an_instant() {
    assert_eq!(to_instant(0), 0);
    assert_eq!(to_instant(5100), 5100);
    assert_eq!(to_instant(u64::MAX as u128), u64::MAX);
}

#[test]
fn span_beyond_the_clock_is_its_last_instant() {
    assert_eq!(to_instant(u64::MAX as u128 + 1), u64::MAX);
    assert_eq!(to_instant(u128::MAX), u64::MAX);
}
