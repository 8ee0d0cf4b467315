use torus_trooper::prefs::{GamePreferences, GradeData, PrefManager, GRADE_NUM};

#[test]
fn fresh_preferences() {
    let p = GamePreferences::new();
    assert_eq!(p.selected_grade, 0);
    assert_eq!(p.selected_level, 1);
    assert_eq!(p.grade_data, [GradeData::new(); GRADE_NUM]);
    assert_eq!(GradeData::new(), GradeData { reached_level: 1, hi_score: 0, start_level: 1, end_level: 1 });
}

#[test]
fn clean_resets_grade_past_the_last() {
    let mut p = GamePreferences::new();
    p.selected_grade = 7;
    p.clean();
    assert_eq!(p.selected_grade, 0);
    p.selected_grade = 3;
    p.clean();
    assert_eq!(p.selected_grade, 3);
    p.selected_grade = 2;
    p.clean();
    assert_eq!(p.selected_grade, 2);
}

#[test]
fn manager_over_loaded_or_fresh_preferences() {
    let mut loaded = GamePreferences::new();
    loaded.selected_grade = 9;
    loaded.selected_level = 4;
    let m = PrefManager::new(Some(loaded));
    assert_eq!(m.selected_grade(), 0);
    assert_eq!(m.selected_level(), 4);
    let m = PrefManager::new(None);
    assert_eq!(*m.prefs(), GamePreferences::new());
}

#[test]
fn record_result_keeps_best() {
    let mut m = PrefManager::new(None);
    m.record_start_game(1, 3);
    assert_eq!(m.selected_grade(), 1);
    assert_eq!(m.selected_level(), 3);
    m.record_result(5, 1000);
    assert_eq!(
        *m.grade_data(1),
        GradeData { reached_level: 5, hi_score: 1000, start_level: 3, end_level: 5 }
    );
    assert_eq!(m.selected_level(), 5);
    m.record_result(2, 500);
    assert_eq!(
        *m.grade_data(1),
        GradeData { reached_level: 5, hi_score: 1000, start_level: 3, end_level: 5 }
    );
    assert_eq!(m.max_level(1), 5);
    assert_eq!(m.max_level(0), 1);
    assert_eq!(m.selected_level(), 2);
    m.record_result(9, 2000);
    assert_eq!(
        *m.grade_data(1),
        GradeData { reached_level: 9, hi_score: 2000, start_level: 2, end_level: 9 }
    );
}
