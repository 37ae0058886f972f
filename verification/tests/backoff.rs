use xcode_discord_rpc::backoff::{Backoff, MAX_MULTIPLIER};

#[test]
fn backoff_starts_at_one() {
    assert_eq!(Backoff::new().multiplier(), 1);
}

#[test]
fn backoff_doubles_up_to_the_cap() {
    let mut backoff = Backoff::new();
    let mut seen = vec![backoff.multiplier()];
    for _ in 0..6 {
        backoff.increase();
        seen.push(backoff.multiplier());
    }
    assert_eq!(seen, vec![1, 2, 4, 8, 8, 8, 8]);
}

#[test]
fn backoff_after_n_increases_is_min_of_power_and_cap() {
    for n in 0u32..12 {
        let mut backoff = Backoff::new();
        for _ in 0..n {
            backoff.increase();
        }
        let expected = std::cmp::min(1u64 << n, MAX_MULTIPLIER);
        assert_eq!(backoff.multiplier(), expected);
    }
}

#[test]
fn backoff_reset_returns_to_one_from_anywhere() {
    for n in 0..5 {
        let mut backoff = Backoff::new();
        for _ in 0..n {
            backoff.increase();
        }
        backoff.reset();
        assert_eq!(backoff.multiplier(), 1);
    }
}

#[test]
fn backoff_scales_the_interval() {
    let mut backoff = Backoff::new();
    assert_eq!(backoff.scale(5), 5);
    backoff.increase();
    assert_eq!(backoff.scale(5), 10);
    backoff.increase();
    assert_eq!(backoff.scale(5), 20);
    backoff.increase();
    assert_eq!(backoff.scale(5), 40);
    backoff.increase();
    assert_eq!(backoff.scale(5), 40);
}

#[test]
fn backoff_scales_the_longest_interval_without_overflow() {
    let mut backoff = Backoff::new();
    for _ in 0..3 {
        backoff.increase();
    }
    let longest = u64::MAX / MAX_MULTIPLIER;
    assert_eq!(backoff.scale(longest), longest * 8);
}

#[test]
fn backoff_cap_is_eight() {
    assert_eq!(MAX_MULTIPLIER, 8);
}
