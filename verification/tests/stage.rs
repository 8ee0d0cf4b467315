use torus_trooper::stage::StageManager;

#[test]
fn zones_alternate_and_colors_cycle() {
    let mut s = StageManager::new();
    assert_eq!(s.poly_colors(), (4, 5));
    s.start(3, 1);
    assert_eq!(s.poly_colors(), (0, 1));
    assert!(s.is_dark_line());
    s.begin_next_zone();
    assert!(s.medium_boss_zone());
    assert!(!s.is_dark_line());
    assert_eq!(s.poly_colors(), (1, 2));
    assert_eq!(s.line_colors(), (1, 2));
    s.begin_next_zone();
    assert!(!s.medium_boss_zone());
    assert_eq!(s.poly_colors(), (1, 2));
}

#[test]
fn bosses_appear_before_zone_end() {
    let mut s = StageManager::new();
    s.start(1, 1);
    assert_eq!(s.set_bosses(1), (159, 1, 160));
    assert_eq!(s.set_bosses(3), (317, 3, 320));
    let mut e = StageManager::new();
    e.start(1, 2);
    assert_eq!(e.boss_app_rank(), 250);
    assert_eq!(e.set_bosses(4), (246, 4, 250));
}

#[test]
fn boss_count_is_capped() {
    assert_eq!(StageManager::boss_count(false, 7), 1);
    assert_eq!(StageManager::boss_count(true, 0), 1);
    assert_eq!(StageManager::boss_count(true, 2), 3);
    assert_eq!(StageManager::boss_count(true, 9), 4);
}

#[test]
fn boss_mode_end_pause() {
    let mut s = StageManager::new();
    s.start(1, 0);
    s.set_bosses(2);
    assert_eq!(s.tick_boss_mode_end(), None);
    s.boss_spawned();
    assert!(!s.zone_cleared(0));
    s.boss_spawned();
    assert!(s.zone_cleared(0));
    assert!(!s.zone_cleared(3));
    s.end_boss_mode();
    for _ in 0..60 {
        assert_eq!(s.tick_boss_mode_end(), Some(false));
    }
    assert_eq!(s.tick_boss_mode_end(), Some(true));
    assert_eq!(s.tick_boss_mode_end(), None);
}

#[test]
fn color_change_counts_down() {
    let mut s = StageManager::new();
    let mut steps = 0;
    while let Some(_) = s.tick_color_change() {
        steps += 1;
    }
    assert_eq!(steps, 60);
    s.begin_next_zone();
    assert_eq!(s.tick_color_change(), Some(59));
}
