use torus_trooper::manager::MoveAction;
use torus_trooper::pad::{PadButtons, PadDirection};
use torus_trooper::prefs::{GamePreferences, PrefManager};
use torus_trooper::title::TitleManager;

fn prefs_with_levels(levels: [u32; 3]) -> PrefManager {
    let mut p = GamePreferences::new();
    for i in 0..3 {
        p.grade_data[i].reached_level = levels[i];
    }
    PrefManager::new(Some(p))
}

fn none() -> PadDirection {
    PadDirection::none()
}

#[test]
fn first_frame_ignores_held_keys() {
    let mut pm = prefs_with_levels([5, 1, 1]);
    let mut t = TitleManager::new();
    let step = t.mov(PadDirection::down(), PadButtons::a(), false, &mut pm);
    assert_eq!(step.action, MoveAction::NoAction);
    assert_eq!(t.level(), 1);
}

#[test]
fn grades_cycle_and_level_follows() {
    let mut pm = prefs_with_levels([5, 3, 1]);
    let mut t = TitleManager::new();
    t.mov(none(), PadButtons::none(), false, &mut pm);
    t.mov(PadDirection::down(), PadButtons::none(), false, &mut pm);
    assert_eq!(t.level(), 2);
    t.mov(none(), PadButtons::none(), false, &mut pm);
    t.mov(PadDirection::right(), PadButtons::none(), false, &mut pm);
    assert_eq!(t.grade(), 1);
    assert_eq!(t.level(), 2);
    t.mov(none(), PadButtons::none(), false, &mut pm);
    t.mov(PadDirection::right(), PadButtons::none(), false, &mut pm);
    assert_eq!(t.grade(), 2);
    assert_eq!(t.level(), 1);
    t.mov(none(), PadButtons::none(), false, &mut pm);
    t.mov(PadDirection::left(), PadButtons::none(), false, &mut pm);
    assert_eq!(t.grade(), 1);
    // the level stood at the old grade's highest, so it follows the new grade's
    assert_eq!(t.level(), 3);
}

#[test]
fn level_wraps_around() {
    let mut pm = prefs_with_levels([3, 1, 1]);
    let mut t = TitleManager::new();
    t.mov(none(), PadButtons::none(), false, &mut pm);
    t.mov(PadDirection::up(), PadButtons::none(), false, &mut pm);
    assert_eq!(t.level(), 3);
    t.mov(none(), PadButtons::none(), false, &mut pm);
    t.mov(PadDirection::down(), PadButtons::none(), false, &mut pm);
    assert_eq!(t.level(), 1);
}

#[test]
fn held_down_repeats_and_stops_at_top() {
    let mut pm = prefs_with_levels([10, 1, 1]);
    let mut t = TitleManager::new();
    t.mov(none(), PadButtons::none(), false, &mut pm);
    for _ in 0..200 {
        t.mov(PadDirection::down(), PadButtons::none(), false, &mut pm);
    }
    assert_eq!(t.level(), 10);
}

#[test]
fn start_button_records_selection() {
    let mut pm = prefs_with_levels([4, 1, 1]);
    let mut t = TitleManager::new();
    t.mov(none(), PadButtons::none(), false, &mut pm);
    t.mov(PadDirection::down(), PadButtons::none(), false, &mut pm);
    let step = t.mov(none(), PadButtons::a(), false, &mut pm);
    assert_eq!(step.action, MoveAction::StartInGame);
    assert_eq!(pm.selected_grade(), 0);
    assert_eq!(pm.selected_level(), 2);
    assert_eq!(t.cnt(), 3);
}

#[test]
fn replay_view_switches_camera() {
    let mut pm = prefs_with_levels([1, 1, 1]);
    let mut t = TitleManager::new();
    t.mov(none(), PadButtons::none(), true, &mut pm);
    t.mov(none(), PadButtons::b(), true, &mut pm);
    assert!(t.is_replay_mode());
    assert_eq!(t.replay_cnt(), 1);
    let step = t.mov(PadDirection::left(), PadButtons::none(), true, &mut pm);
    assert_eq!(step.camera_mode, Some(true));
    t.mov(none(), PadButtons::none(), true, &mut pm);
    let step = t.mov(PadDirection::down(), PadButtons::none(), true, &mut pm);
    assert_eq!(step.draw_front_mode, Some(false));
    // the start button does nothing in the replay view
    let step = t.mov(none(), PadButtons::a(), true, &mut pm);
    assert_eq!(step.action, MoveAction::NoAction);
    // without replay data, B does not switch
    let mut u = TitleManager::new();
    u.mov(none(), PadButtons::none(), false, &mut pm);
    u.mov(none(), PadButtons::b(), false, &mut pm);
    assert!(!u.is_replay_mode());
}
