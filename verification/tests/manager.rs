use torus_trooper::manager::{
    GameManager, GameOverStep, GameState, InGameState, MoveAction, TitleState, REPLAY_RESTART_FRAMES,
};

#[test]
fn escape_leaves_game_then_quits() {
    let mut m = GameManager::new();
    m.start_in_game();
    assert_eq!(m.state(), GameState::InGame);
    assert_eq!(m.mov(true), Some(MoveAction::StartTitle(false)));
    // still held: no new action
    assert_eq!(m.mov(true), None);
    m.start_title();
    assert_eq!(m.mov(false), None);
    assert_eq!(m.mov(true), Some(MoveAction::BreakLoop));
}

#[test]
fn pause_toggles_on_new_press() {
    let mut s = InGameState::new();
    s.start();
    assert!(s.mov_pause(true, false));
    assert!(s.mov_pause(true, false));
    assert!(s.mov_pause(false, false));
    assert!(!s.mov_pause(true, false));
    assert!(!s.mov_pause(false, false));
    // no pause after game over
    assert!(!s.mov_pause(true, true));
}

#[test]
fn game_over_returns_to_title() {
    let mut s = InGameState::new();
    s.start();
    assert_eq!(
        s.mov_game_over(false, false, true),
        GameOverStep { ends_game: false, action: MoveAction::NoAction }
    );
    let first = s.mov_game_over(true, false, true);
    assert_eq!(first, GameOverStep { ends_game: true, action: MoveAction::NoAction });
    for _ in 0..60 {
        assert_eq!(s.mov_game_over(true, true, false).action, MoveAction::NoAction);
    }
    assert_eq!(s.mov_game_over(true, true, true).action, MoveAction::StartTitle(true));
}

#[test]
fn game_over_times_out() {
    let mut s = InGameState::new();
    s.start();
    let mut last = MoveAction::NoAction;
    for _ in 0..1201 {
        last = s.mov_game_over(true, true, false).action;
    }
    assert_eq!(last, MoveAction::StartTitle(false));
}

#[test]
fn demo_replay_restarts_after_its_game_over() {
    let mut t = TitleState::new();
    t.set_replay_data();
    t.start_replay();
    assert!(!t.mov_game_over(false));
    for _ in 0..REPLAY_RESTART_FRAMES {
        assert!(!t.mov_game_over(true));
    }
    assert_eq!(t.game_over_cnt(), 120);
    assert!(t.mov_game_over(true));
    assert_eq!(t.game_over_cnt(), 0);
}

#[test]
fn title_without_replay_keeps_counting() {
    let mut t = TitleState::new();
    assert!(!t.has_replay());
    for _ in 0..REPLAY_RESTART_FRAMES {
        t.mov_game_over(true);
    }
    assert!(t.mov_game_over(true));
    assert!(t.mov_game_over(true));
    assert_eq!(t.game_over_cnt(), 122);
}

#[test]
fn pause_counter_is_readable() {
    let mut g = InGameState::new();
    g.start();
    assert_eq!(g.pause_cnt(), 0);
    assert!(g.mov_pause(true, false));
    assert_eq!(g.pause_cnt(), 2);
}
