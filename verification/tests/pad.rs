use rle_vec::RleVec;
use torus_trooper::pad::{GamePad, JoystickInput, Key, PadButtons, PadDirection, PadState};

fn runs(r: &RleVec<PadState>) -> Vec<(u8, u8, usize)> {
    r.runs().map(|run| (run.value.direction.bits(), run.value.buttons.bits(), run.len)).collect()
}

fn no_stick() -> JoystickInput {
    JoystickInput { axis_x: 0, axis_y: 0, buttons: [false; 8] }
}

#[test]
fn flag_values() {
    assert_eq!(PadDirection::none().bits(), 0);
    assert_eq!(PadDirection::up().bits(), 1);
    assert_eq!(PadDirection::down().bits(), 2);
    assert_eq!(PadDirection::left().bits(), 4);
    assert_eq!(PadDirection::right().bits(), 8);
    assert_eq!(PadButtons::any().bits(), 3);
    assert_eq!(PadButtons::a().union(PadButtons::b()), PadButtons::any());
    assert!(PadDirection::from_flags(true, false, true, false).intersects(PadDirection::left()));
    assert!(!PadDirection::up().intersects(PadDirection::down()));
    assert!(PadDirection::none().is_empty());
}

#[test]
fn keys_give_directions() {
    let mut pad = GamePad::new(false);
    pad.handle_key_event(Key::Left, true);
    assert_eq!(pad.get_state(None).direction, PadDirection::left());
    pad.handle_key_event(Key::NumPad2, true);
    assert_eq!(pad.get_state(None).direction.bits(), 4 | 2);
    pad.handle_key_event(Key::Left, false);
    assert_eq!(pad.get_state(None).direction, PadDirection::down());
    // The D key counts for both right and up.
    pad.handle_key_event(Key::D, true);
    assert_eq!(pad.get_state(None).direction.bits(), 2 | 8 | 1);
    pad.handle_key_event(Key::Other(1234), true);
    assert_eq!(pad.get_state(None).direction.bits(), 2 | 8 | 1);
}

#[test]
fn repeated_press_is_one_key() {
    let mut pad = GamePad::new(false);
    pad.handle_key_event(Key::Up, true);
    pad.handle_key_event(Key::Up, true);
    pad.handle_key_event(Key::Up, false);
    assert_eq!(pad.get_state(None).direction, PadDirection::none());
}

#[test]
fn buttons_and_reversal() {
    let mut pad = GamePad::new(false);
    pad.handle_key_event(Key::Z, true);
    assert_eq!(pad.get_state(None).buttons, PadButtons::a());
    let mut rev = GamePad::new(true);
    rev.handle_key_event(Key::Z, true);
    assert_eq!(rev.get_state(None).buttons, PadButtons::b());
    rev.handle_key_event(Key::LShift, true);
    assert_eq!(rev.get_state(None).buttons, PadButtons::any());
}

#[test]
fn focus_loss_releases_keys() {
    let mut pad = GamePad::new(false);
    pad.handle_key_event(Key::P, true);
    pad.handle_key_event(Key::Escape, true);
    pad.handle_key_event(Key::X, true);
    assert!(pad.pause_pressed());
    assert!(pad.esc_pressed());
    pad.handle_focus_event(true);
    assert!(pad.pause_pressed());
    pad.handle_focus_event(false);
    assert!(!pad.pause_pressed());
    assert!(!pad.esc_pressed());
    assert_eq!(pad.get_state(None).buttons, PadButtons::none());
}

#[test]
fn joystick_adds_to_keys() {
    let mut pad = GamePad::new(false);
    pad.handle_key_event(Key::Up, true);
    let mut j = no_stick();
    j.axis_x = 20000;
    j.axis_y = -16385;
    j.buttons[5] = true;
    let s = pad.get_state(Some(j));
    assert_eq!(s.direction.bits(), 1 | 8);
    assert_eq!(s.buttons, PadButtons::b());
    let mut k = no_stick();
    k.axis_x = -16384;
    k.buttons[7] = true;
    let s = pad.get_state(Some(k));
    assert_eq!(s.direction, PadDirection::up());
    assert_eq!(s.buttons, PadButtons::a());
}

#[test]
fn recording_is_run_length_encoded() {
    let mut pad = GamePad::new(false);
    pad.start_record();
    pad.record_state(None);
    pad.record_state(None);
    pad.handle_key_event(Key::Right, true);
    pad.record_state(None);
    pad.handle_key_event(Key::Right, false);
    pad.record_state(Some(no_stick()));
    let record = pad.get_record();
    assert_eq!(runs(&record), vec![(0, 0, 2), (8, 0, 1), (0, 0, 1)]);
    assert_eq!(runs(&pad.get_record()), vec![]);
}

#[test]
fn replay_gives_back_the_recording() {
    let mut pad = GamePad::new(false);
    pad.start_record();
    let mut recorded = Vec::new();
    let keys = [None, Some(Key::Up), Some(Key::Up), None, Some(Key::Z), Some(Key::Z), Some(Key::Z)];
    for k in keys.iter() {
        pad.handle_focus_event(false);
        if let Some(k) = k {
            pad.handle_key_event(*k, true);
        }
        recorded.push(pad.record_state(None));
    }
    let record = pad.get_record();
    let mut player = GamePad::new(false);
    player.start_replay(record);
    let mut replayed = Vec::new();
    while let Some(s) = player.replay_state() {
        replayed.push(s);
    }
    assert_eq!(replayed, recorded);
    assert_eq!(player.replay_state(), None);
}

#[test]
fn recorded_frames_are_counted() {
    let mut p = GamePad::new(false);
    p.start_record();
    assert_eq!(p.recorded_frames(), 0);
    for _ in 0..5 {
        p.record_state(None);
    }
    p.handle_key_event(Key::Up, true);
    p.record_state(None);
    assert_eq!(p.recorded_frames(), 6);
}
