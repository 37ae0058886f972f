use xcode_discord_rpc::cadence::Cadence;

fn due_pattern(period: u8, cycles: usize) -> Vec<bool> {
    let mut cadence = Cadence::new(period);
    let mut due = Vec::new();
    for _ in 0..cycles {
        due.push(cadence.tick());
    }
    due
}

#[test]
fn cadence_checks_on_the_first_cycle() {
    let mut cadence = Cadence::new(4);
    assert_eq!(cadence.cycles(), 4);
    assert_eq!(cadence.period(), 4);
    assert!(cadence.tick());
    assert_eq!(cadence.cycles(), 0);
}

#[test]
fn cadence_counts_up_to_the_period_between_checks() {
    let mut cadence = Cadence::new(3);
    assert!(cadence.tick());
    let mut seen = Vec::new();
    for _ in 0..8 {
        let due = cadence.tick();
        seen.push((due, cadence.cycles()));
    }
    assert_eq!(
        seen,
        vec![
            (false, 1),
            (false, 2),
            (false, 3),
            (true, 0),
            (false, 1),
            (false, 2),
            (false, 3),
            (true, 0),
        ]
    );
}

#[test]
fn cadence_one_check_in_a_period_of_cycles_after_the_first() {
    // One cycle after a check the counter stands at one; the next three
    // cycles hold exactly one check, on the cycle that finds it at three.
    let mut cadence = Cadence::new(3);
    assert!(cadence.tick());
    assert!(!cadence.tick());
    assert_eq!(cadence.cycles(), 1);
    let window: Vec<bool> = (0..3).map(|_| cadence.tick()).collect();
    assert_eq!(window, vec![false, false, true]);
    assert_eq!(cadence.cycles(), 0);
}

#[test]
fn cadence_no_check_in_the_period_right_after_a_check() {
    let mut cadence = Cadence::new(3);
    assert!(cadence.tick());
    let window: Vec<bool> = (0..3).map(|_| cadence.tick()).collect();
    assert_eq!(window, vec![false, false, false]);
    assert!(cadence.tick());
}

#[test]
fn cadence_one_check_in_every_round() {
    for period in [0u8, 1, 2, 5, 9] {
        let round = period as usize + 1;
        let due = due_pattern(period, 4 * round);
        for start in 0..(3 * round) {
            let checks = due[start..start + round].iter().filter(|d| **d).count();
            assert_eq!(checks, 1);
        }
    }
}

#[test]
fn cadence_with_period_zero_checks_every_cycle() {
    assert_eq!(due_pattern(0, 4), vec![true, true, true, true]);
}

#[test]
fn cadence_with_longest_period_does_not_overflow() {
    let mut cadence = Cadence::new(u8::MAX);
    assert!(cadence.tick());
    for expected in 1..=u8::MAX {
        assert!(!cadence.tick());
        assert_eq!(cadence.cycles(), expected);
    }
    assert!(cadence.tick());
    assert_eq!(cadence.cycles(), 0);
}
