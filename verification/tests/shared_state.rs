use torus_trooper::shared_state::{SharedState, TimeChange};

#[test]
fn new_state_is_zero() {
    let s = SharedState::new();
    assert_eq!(s.score(), 0);
    assert_eq!(s.time(), 0);
    assert_eq!(s.time_message(), TimeChange::Nothing);
    assert!(!s.time_message_visible());
}

#[test]
fn init_sets_first_extend_and_full_time() {
    let mut s = SharedState::new();
    s.init_game_state(0);
    assert_eq!(s.score(), 0);
    assert_eq!(s.score_to_next_extend(), 100000);
    assert_eq!(s.time(), 120000);
    let mut s = SharedState::new();
    s.init_game_state(12);
    assert_eq!(s.score_to_next_extend(), 220000);
    let mut s = SharedState::new();
    s.init_game_state(100);
    assert_eq!(s.score_to_next_extend(), 500000);
}

#[test]
fn scoring_past_threshold_extends_time() {
    let mut s = SharedState::new();
    s.init_game_state(0);
    s.ship_destroyed();
    assert_eq!(s.time(), 105000);
    assert_eq!(s.time_message(), TimeChange::ShipDestroyed);
    s.add_score(250000, false, 0);
    assert_eq!(s.score(), 250000);
    // two extends: thresholds 100000 and 200000 passed, next at 300000
    assert_eq!(s.score_to_next_extend(), 50000);
    assert_eq!(s.time(), 120000);
    assert_eq!(s.time_message(), TimeChange::Extend);
    assert_eq!(TimeChange::Extend.message(), "+15 SEC.");
}

#[test]
fn score_at_threshold_does_not_extend() {
    let mut s = SharedState::new();
    s.init_game_state(0);
    s.ship_destroyed();
    s.add_score(100000, false, 0);
    assert_eq!(s.score_to_next_extend(), 0);
    assert_eq!(s.time(), 105000);
}

#[test]
fn game_over_ignores_score() {
    let mut s = SharedState::new();
    s.init_game_state(0);
    s.add_score(5000, true, 0);
    assert_eq!(s.score(), 0);
}

#[test]
fn zones_add_time_up_to_maximum() {
    let mut s = SharedState::new();
    s.init_game_state(0);
    for _ in 0..3000 {
        s.decrement_time(false);
    }
    assert_eq!(s.time(), 120000 - 3000 * 17);
    s.goto_next_zone(false, true);
    assert_eq!(s.time(), 120000 - 51000 + 30000);
    assert_eq!(s.time_message(), TimeChange::NextZone);
    s.goto_next_zone(false, false);
    assert_eq!(s.time(), 120000);
    assert_eq!(s.time_message().message(), "+45 SEC.");
}

#[test]
fn message_blinks_while_shown() {
    let mut s = SharedState::new();
    s.init_game_state(0);
    s.ship_destroyed();
    // 240 frames: 240 % 64 = 48 > 32, visible
    assert!(s.time_message_visible());
    for _ in 0..20 {
        s.decrement_time(false);
    }
    // 220 % 64 = 28, hidden
    assert!(!s.time_message_visible());
}

#[test]
fn time_overflow_clamps_to_zero_and_ends_replay() {
    let mut s = SharedState::new();
    assert!(s.decrement_time(true));
    assert_eq!(s.time(), -17);
    assert!(s.check_time_overflow());
    assert_eq!(s.time(), 0);
    assert!(!s.check_time_overflow());
    assert!(!s.decrement_time(false));
    assert!(s.time_is_short());
}
