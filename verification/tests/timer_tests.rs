use axol::timer::Timer;

#[test]
fn repeating_timer_fires_only_after_full_duration() {
    let mut t = Timer::from_millis(1500, true);
    t.tick(1000);
    assert!(!t.just_finished());
    assert!(!t.finished());
    t.tick(500);
    assert!(t.just_finished());
    assert!(t.finished());
    // Rearmed from zero: a full duration must elapse again.
    t.tick(1000);
    assert!(!t.just_finished());
    t.tick(400);
    assert!(!t.just_finished());
    t.tick(100);
    assert!(t.just_finished());
}

#[test]
fn repeating_timer_overshoot_still_spaces_completions() {
    let mut t = Timer::from_millis(1500, true);
    // A long frame completes the period and rearms from zero.
    t.tick(2000);
    assert!(t.just_finished());
    // Less than a full further duration: no second completion.
    t.tick(1499);
    assert!(!t.just_finished());
    t.tick(1);
    assert!(t.just_finished());
}

#[test]
fn one_shot_timer_latches_finished() {
    let mut t = Timer::from_millis(3000, false);
    t.tick(2999);
    assert!(!t.finished());
    t.tick(1);
    assert!(t.just_finished());
    assert!(t.finished());
    t.tick(500);
    assert!(!t.just_finished());
    assert!(t.finished());
}

#[test]
fn fresh_timer_is_not_finished() {
    let t = Timer::from_millis(100, true);
    assert!(!t.finished());
    assert!(!t.just_finished());
    assert_eq!(t.duration_ms, 100);
    assert_eq!(t.elapsed_ms, 0);
}
