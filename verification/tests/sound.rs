use torus_trooper::sound::SoundManager;

#[test]
fn silent_manager_plays_nothing() {
    let mut s = SoundManager::new(true, 1);
    s.init(3);
    assert_eq!(s.play_bgm(), None);
    assert_eq!(s.next_bgm(), None);
    assert!(!s.se_enabled());
    assert!(s.is_silent());
}

#[test]
fn pick_avoids_last_track() {
    assert_eq!(SoundManager::pick_bgm(2, 1, 2, 4), (3, 1));
    assert_eq!(SoundManager::pick_bgm(3, 0, 3, 4), (0, -1));
    assert_eq!(SoundManager::pick_bgm(1, 0, 3, 4), (1, -1));
}

#[test]
fn new_game_track_differs_and_next_steps() {
    let mut s = SoundManager::new(false, 42);
    s.init(5);
    let mut prev = s.play_bgm().unwrap();
    assert!(prev < 5);
    for seed in 0..20u64 {
        s.set_rand_seed(seed);
        let t = s.play_bgm().unwrap();
        assert!(t < 5);
        assert_ne!(t, prev);
        prev = t;
        let n = s.next_bgm().unwrap();
        assert!(n == (t + 1) % 5 || n == (t + 4) % 5);
        prev = n;
    }
}

#[test]
fn sound_effects_switch() {
    let mut s = SoundManager::new(false, 1);
    assert!(s.se_enabled());
    s.disable_se();
    assert!(!s.se_enabled());
    s.enable_se();
    assert!(s.se_enabled());
}
