use vstd::prelude::*;
use crate::manager::MoveAction;
use crate::pad::{PadButtons, PadDirection};
use crate::prefs::{GamePreferences, PrefManager, GRADE_NUM};

verus! {

/// Frames that the switch between the menu and the replay view takes.
pub const REPLAY_CHANGE_DURATION: u32 = 30;
/// Frames a direction is held before the level selection repeats by itself.
pub const AUTO_REPEAT_START_TIME: u32 = 30;
/// Frames between two automatic repeats.
pub const AUTO_REPEAT_CNT: u32 = 5;

/// The title menu's state, as plain values.
pub struct TitleView {
    pub cnt: int,
    pub grade: u32,
    pub level: int,
    pub dir_pressed: bool,
    pub btn_pressed: bool,
    pub key_repeat_cnt: int,
    pub replay_cnt: int,
    pub replay_mode: bool,
}

/// What a frame of the title menu asks of the rest of the game.
#[derive(Debug, Clone, Copy, PartialEq, Eq, Structural)]
pub struct TitleStep {
    pub action: MoveAction,
    /// In the replay view, the camera mode to switch the ship to.
    pub camera_mode: Option<bool>,
    /// In the replay view, whether the ship's front display is to be shown.
    pub draw_front_mode: Option<bool>,
}

/// The highest level reached at grade `g`.
pub open spec fn max_level_of(p: GamePreferences, g: u32) -> int {
    p.grade_data@[g as int].reached_level as int
}

/// Whether `bits` holds any of the bits of `flag`.
pub open spec fn holds_flag(bits: u8, flag: u8) -> bool {
    bits & flag != 0
}

proof fn lemma_flag_split(d: u8)
    by (bit_vector)
    ensures
        (d & 12 != 0) == (d & 8 != 0 || d & 4 != 0),
        (d & 3 != 0) == (d & 2 != 0 || d & 1 != 0),
{
}

/// The grade switch: left or right, on a new press, moves through the grades, and the
/// level follows the highest level of the new grade when it stood at the old one's or
/// lies past the new one's.
pub open spec fn title_grade_step(v: TitleView, dir: u8, p: GamePreferences) -> TitleView {
    if holds_flag(dir, 12) && !v.dir_pressed {
        let old_max = max_level_of(p, v.grade);
        let g1: u32 = if holds_flag(dir, 8) {
            ((v.grade + 1) % (GRADE_NUM as int)) as u32
        } else {
            v.grade
        };
        let g2: u32 = if holds_flag(dir, 4) {
            ((g1 + GRADE_NUM - 1) % (GRADE_NUM as int)) as u32
        } else {
            g1
        };
        let max = max_level_of(p, g2);
        TitleView {
            dir_pressed: true,
            grade: g2,
            level: if v.level == old_max || v.level > max {
                max
            } else {
                v.level
            },
            ..v
        }
    } else {
        v
    }
}

/// How far one frame of up or down moves the level, and the menu's state after
/// counting the frame: one step on a new press; while held, after the repeat delay,
/// every few frames a step that grows with the time held.
pub open spec fn title_move_amount(v: TitleView) -> (TitleView, int) {
    if !v.dir_pressed {
        (TitleView { dir_pressed: true, ..v }, 1)
    } else {
        let k = v.key_repeat_cnt + 1;
        let mv = if k >= AUTO_REPEAT_START_TIME && k % (AUTO_REPEAT_CNT as int) == 0 {
            (k / (AUTO_REPEAT_START_TIME as int)) * (k / (AUTO_REPEAT_START_TIME as int))
        } else {
            0
        };
        (TitleView { key_repeat_cnt: k, ..v }, mv)
    }
}

/// The level after moving down by `mv`: past the highest level it stops there when
/// repeating, and wraps to level 1 otherwise.
pub open spec fn title_level_down(v: TitleView, mv: int, max: int) -> TitleView {
    let l = v.level + mv;
    if l > max {
        TitleView {
            level: if v.key_repeat_cnt >= AUTO_REPEAT_START_TIME {
                max
            } else {
                1
            },
            key_repeat_cnt: 0,
            ..v
        }
    } else {
        TitleView { level: l, ..v }
    }
}

/// The level after moving up by `mv`: below level 1 it stops there when repeating,
/// and wraps to the highest level otherwise.
pub open spec fn title_level_up(v: TitleView, mv: int, max: int) -> TitleView {
    let l = v.level - mv;
    if l < 1 {
        TitleView {
            level: if v.key_repeat_cnt >= AUTO_REPEAT_START_TIME {
                1
            } else {
                max
            },
            key_repeat_cnt: 0,
            ..v
        }
    } else {
        TitleView { level: l, ..v }
    }
}

/// The level selection of one frame.
pub open spec fn title_level_step(v: TitleView, dir: u8, p: GamePreferences) -> TitleView {
    if holds_flag(dir, 3) {
        let (w, mv) = title_move_amount(v);
        let max = max_level_of(p, w.grade);
        let d = if holds_flag(dir, 2) {
            title_level_down(w, mv, max)
        } else {
            w
        };
        if holds_flag(dir, 1) {
            title_level_up(d, mv, max)
        } else {
            d
        }
    } else {
        v
    }
}

/// The level selection keeps the level between 1 and the grade's highest reached
/// level: a step past either end stops at that end while the key repeats, and on a
/// fresh press wraps round to the other end.
pub proof fn law_title_level_stays_in_range(v: TitleView, dir: u8, p: GamePreferences)
    requires
        1 <= v.level <= max_level_of(p, v.grade),
    ensures
        1 <= title_level_step(v, dir, p).level <= max_level_of(p, v.grade),
        title_level_step(v, dir, p).grade == v.grade,
{
    if v.dir_pressed {
        let q = (v.key_repeat_cnt + 1) / (AUTO_REPEAT_START_TIME as int);
        assert(q * q >= 0) by (nonlinear_arith);
    }
}

/// A fresh press of a direction (none was held, so nothing repeats) moves the level by
/// one and wraps round at the ends: down from the highest level gives level 1, up from
/// level 1 gives the highest level.
pub proof fn law_title_fresh_press_wraps(v: TitleView, p: GamePreferences)
    requires
        !v.dir_pressed,
        v.key_repeat_cnt == 0,
        1 <= v.level <= max_level_of(p, v.grade),
    ensures
        v.level == max_level_of(p, v.grade) ==> title_level_step(v, 2, p).level == 1,
        v.level == 1 ==> title_level_step(v, 1, p).level == max_level_of(p, v.grade),
        1 < v.level ==> title_level_step(v, 1, p).level == v.level - 1,
        v.level < max_level_of(p, v.grade) ==> title_level_step(v, 2, p).level == v.level + 1,
{
    assert(holds_flag(2, 3) && holds_flag(2, 2) && !holds_flag(2, 1)) by (bit_vector);
    assert(holds_flag(1, 3) && !holds_flag(1, 2) && holds_flag(1, 1)) by (bit_vector);
}

/// The level selection of a frame, starting from `v`, stays within `u32`.
pub open spec fn title_level_in_range(v: TitleView, dir: u8, p: GamePreferences) -> bool {
    let (w, mv) = title_move_amount(v);
    let max = max_level_of(p, w.grade);
    let d = if holds_flag(dir, 2) {
        title_level_down(w, mv, max)
    } else {
        w
    };
    &&& v.key_repeat_cnt + 1 <= 30 * 65535
    &&& holds_flag(dir, 2) ==> w.level + mv <= u32::MAX
    &&& holds_flag(dir, 1) ==> d.level >= mv
}

/// The arithmetic of a frame of the menu stays within `u32`.
pub open spec fn title_step_in_range(v: TitleView, dir: u8, p: GamePreferences) -> bool {
    &&& v.cnt < u32::MAX
    &&& !v.replay_mode && holds_flag(dir, 3) ==> title_level_in_range(
        title_grade_step(v, dir, p),
        dir,
        p,
    )
}

/// The title screen's menu: the grade and level to start at, and the switch to the
/// replay view.
pub struct TitleManager {
    cnt: u32,
    grade: u32,
    level: u32,
    dir_pressed: bool,
    btn_pressed: bool,
    key_repeat_cnt: u32,
    replay_cnt: u32,
    replay_mode: bool,
}

impl TitleManager {
    pub closed spec fn view(&self) -> TitleView {
        TitleView {
            cnt: self.cnt as int,
            grade: self.grade,
            level: self.level as int,
            dir_pressed: self.dir_pressed,
            btn_pressed: self.btn_pressed,
            key_repeat_cnt: self.key_repeat_cnt as int,
            replay_cnt: self.replay_cnt as int,
            replay_mode: self.replay_mode,
        }
    }

    /// The selected grade is a grade, and the replay counter stays within its span.
    pub open spec fn wf(&self) -> bool {
        &&& self.view().grade < GRADE_NUM
        &&& 0 <= self.view().replay_cnt <= REPLAY_CHANGE_DURATION
        &&& !self.view().dir_pressed ==> self.view().key_repeat_cnt == 0
    }

    /// The menu at grade 0, level 1, with the keys treated as held so that the press
    /// that opened the title does not act.
    pub fn new() -> (t: TitleManager)
        ensures
            t.wf(),
            t.view() == (TitleView {
                cnt: 0,
                grade: 0,
                level: 1,
                dir_pressed: true,
                btn_pressed: true,
                key_repeat_cnt: 0,
                replay_cnt: 0,
                replay_mode: false,
            }),
    {
        TitleManager {
            cnt: 0,
            grade: 0,
            level: 1,
            dir_pressed: true,
            btn_pressed: true,
            key_repeat_cnt: 0,
            replay_cnt: 0,
            replay_mode: false,
        }
    }

    /// One frame of the menu: the pad's directions move through the grades and
    /// levels (in the replay view, they switch the camera and the front display), the
    /// first button starts a game at the selection, and the second switches to or from
    /// the replay view when there is a replay.
    pub fn mov(
        &mut self,
        dir: PadDirection,
        btn: PadButtons,
        has_replay_data: bool,
        pref_manager: &mut PrefManager,
    ) -> (r: TitleStep)
        requires
            old(self).wf(),
            title_step_in_range(old(self).view(), dir.value(), old(pref_manager).view_prefs()),
        ensures
            final(self).wf(),
            ({
                let v = old(self).view();
                let d = dir.value();
                let b = btn.value();
                let p = old(pref_manager).view_prefs();
                let lv = if !v.replay_mode {
                    title_level_step(title_grade_step(v, d, p), d, p)
                } else {
                    let dp1 = v.dir_pressed || holds_flag(d, 12);
                    TitleView { dir_pressed: dp1 || holds_flag(d, 3), ..v }
                };
                let released = if d == 0 {
                    TitleView { dir_pressed: false, key_repeat_cnt: 0, ..lv }
                } else {
                    lv
                };
                let new_press = holds_flag(b, 3) && !v.btn_pressed;
                let starts = new_press && holds_flag(b, 1) && !v.replay_mode;
                let replay_mode = if new_press && has_replay_data && holds_flag(b, 2) {
                    !v.replay_mode
                } else {
                    v.replay_mode
                };
                let replay_cnt = if replay_mode {
                    if v.replay_cnt < REPLAY_CHANGE_DURATION {
                        v.replay_cnt + 1
                    } else {
                        v.replay_cnt
                    }
                } else if v.replay_cnt > 0 {
                    v.replay_cnt - 1
                } else {
                    v.replay_cnt
                };
                &&& final(self).view() == TitleView {
                    btn_pressed: holds_flag(b, 3),
                    replay_mode,
                    replay_cnt,
                    cnt: v.cnt + 1,
                    ..released
                }
                &&& r.action == if starts {
                    MoveAction::StartInGame
                } else {
                    MoveAction::NoAction
                }
                &&& final(pref_manager).view_prefs() == if starts {
                    GamePreferences {
                        selected_grade: released.grade,
                        selected_level: released.level as u32,
                        ..p
                    }
                } else {
                    p
                }
                &&& r.camera_mode == if v.replay_mode && holds_flag(d, 12) && !v.dir_pressed {
                    if holds_flag(d, 4) {
                        Some(true)
                    } else {
                        Some(false)
                    }
                } else {
                    None
                }
                &&& r.draw_front_mode == if v.replay_mode && holds_flag(d, 3) && !(v.dir_pressed || holds_flag(
                    d,
                    12,
                )) {
                    if holds_flag(d, 2) {
                        Some(false)
                    } else {
                        Some(true)
                    }
                } else {
                    None
                }
            }),
    {
        let ghost v0 = self.view();
        let mut camera_mode: Option<bool> = None;
        let mut draw_front_mode: Option<bool> = None;
        if !self.replay_mode {
            self.select_grade(dir, pref_manager);
            self.select_level(dir, pref_manager);
        } else {
            let (c, f) = self.switch_view_modes(dir);
            camera_mode = c;
            draw_front_mode = f;
        }
        if dir.is_empty() {
            self.dir_pressed = false;
            self.key_repeat_cnt = 0;
        }
        let action = self.press_buttons(btn, has_replay_data, pref_manager);
        self.count_frame();
        TitleStep { action, camera_mode, draw_front_mode }
    }

    fn select_grade(&mut self, dir: PadDirection, pref_manager: &PrefManager)
        requires
            old(self).wf(),
        ensures
            final(self).wf(),
            final(self).view() == title_grade_step(
                old(self).view(),
                dir.value(),
                pref_manager.view_prefs(),
            ),
    {
        let lr = PadDirection::from_flags(false, false, true, true);
        assert(lr.value() == 12);
        if dir.intersects(lr) {
            if !self.dir_pressed {
                self.dir_pressed = true;
                let old_max_level = pref_manager.max_level(self.grade);
                if dir.intersects(PadDirection::right()) {
                    self.grade = (self.grade + 1) % (GRADE_NUM as u32);
                }
                if dir.intersects(PadDirection::left()) {
                    self.grade = (self.grade + GRADE_NUM as u32 - 1) % (GRADE_NUM as u32);
                }
                let max_level = pref_manager.max_level(self.grade);
                if self.level == old_max_level || self.level > max_level {
                    self.level = max_level;
                }
            }
        }
    }

    fn step_amount(&mut self) -> (mv: u32)
        requires
            old(self).wf(),
            old(self).view().key_repeat_cnt + 1 <= 30 * 65535,
        ensures
            final(self).wf(),
            (final(self).view(), mv as int) == title_move_amount(old(self).view()),
    {
        let mut mv: u32 = 0;
        if !self.dir_pressed {
            self.dir_pressed = true;
            mv = 1;
        } else {
            self.key_repeat_cnt = self.key_repeat_cnt + 1;
            if self.key_repeat_cnt >= AUTO_REPEAT_START_TIME {
                if self.key_repeat_cnt % AUTO_REPEAT_CNT == 0 {
                    let q = self.key_repeat_cnt / AUTO_REPEAT_START_TIME;
                    assert(q * q <= 65535 * 65535) by (nonlinear_arith)
                        requires
                            q <= 65535,
                    ;
                    mv = q * q;
                }
            }
        }
        mv
    }

    fn select_level(&mut self, dir: PadDirection, pref_manager: &PrefManager)
        requires
            old(self).wf(),
            !old(self).view().replay_mode,
            holds_flag(dir.value(), 3) ==> title_level_in_range(
                old(self).view(),
                dir.value(),
                pref_manager.view_prefs(),
            ),
        ensures
            final(self).wf(),
            final(self).view() == title_level_step(
                old(self).view(),
                dir.value(),
                pref_manager.view_prefs(),
            ),
    {
        let ud = PadDirection::from_flags(true, true, false, false);
        assert(ud.value() == 3);
        if dir.intersects(ud) {
            let mv = self.step_amount();
            let max_level = pref_manager.max_level(self.grade);
            if dir.intersects(PadDirection::down()) {
                self.level = self.level + mv;
                if self.level > max_level {
                    self.level = if self.key_repeat_cnt >= AUTO_REPEAT_START_TIME {
                        max_level
                    } else {
                        1
                    };
                    self.key_repeat_cnt = 0;
                }
            }
            if dir.intersects(PadDirection::up()) {
                self.level = self.level - mv;
                if self.level < 1 {
                    self.level = if self.key_repeat_cnt >= AUTO_REPEAT_START_TIME {
                        1
                    } else {
                        max_level
                    };
                    self.key_repeat_cnt = 0;
                }
            }
        }
    }

    fn switch_view_modes(&mut self, dir: PadDirection) -> (r: (Option<bool>, Option<bool>))
        requires
            old(self).wf(),
        ensures
            final(self).wf(),
            final(self).view() == (TitleView {
                dir_pressed: old(self).view().dir_pressed || holds_flag(dir.value(), 12) || holds_flag(
                    dir.value(),
                    3,
                ),
                ..old(self).view()
            }),
            r.0 == if holds_flag(dir.value(), 12) && !old(self).view().dir_pressed {
                if holds_flag(dir.value(), 4) {
                    Some(true)
                } else {
                    Some(false)
                }
            } else {
                None
            },
            r.1 == if holds_flag(dir.value(), 3) && !(old(self).view().dir_pressed || holds_flag(
                dir.value(),
                12,
            )) {
                if holds_flag(dir.value(), 2) {
                    Some(false)
                } else {
                    Some(true)
                }
            } else {
                None
            },
    {
        let lr = PadDirection::from_flags(false, false, true, true);
        let ud = PadDirection::from_flags(true, true, false, false);
        assert(lr.value() == 12);
        assert(ud.value() == 3);
        let mut camera_mode: Option<bool> = None;
        let mut draw_front_mode: Option<bool> = None;
        proof {
            lemma_flag_split(dir.value());
        }
        if dir.intersects(lr) {
            if !self.dir_pressed {
                self.dir_pressed = true;
                if dir.intersects(PadDirection::right()) {
                    camera_mode = Some(false);
                }
                if dir.intersects(PadDirection::left()) {
                    camera_mode = Some(true);
                }
            }
        }
        if dir.intersects(ud) {
            if !self.dir_pressed {
                self.dir_pressed = true;
                if dir.intersects(PadDirection::up()) {
                    draw_front_mode = Some(true);
                }
                if dir.intersects(PadDirection::down()) {
                    draw_front_mode = Some(false);
                }
            }
        }
        (camera_mode, draw_front_mode)
    }

    fn press_buttons(&mut self, btn: PadButtons, has_replay_data: bool, pref_manager: &mut PrefManager) -> (action: MoveAction)
        requires
            old(self).wf(),
        ensures
            final(self).wf(),
            ({
                let v = old(self).view();
                let b = btn.value();
                let new_press = holds_flag(b, 3) && !v.btn_pressed;
                let starts = new_press && holds_flag(b, 1) && !v.replay_mode;
                &&& final(self).view() == TitleView {
                    btn_pressed: holds_flag(b, 3),
                    replay_mode: if new_press && has_replay_data && holds_flag(b, 2) {
                        !v.replay_mode
                    } else {
                        v.replay_mode
                    },
                    ..v
                }
                &&& action == if starts {
                    MoveAction::StartInGame
                } else {
                    MoveAction::NoAction
                }
                &&& final(pref_manager).view_prefs() == if starts {
                    GamePreferences {
                        selected_grade: v.grade,
                        selected_level: v.level as u32,
                        ..old(pref_manager).view_prefs()
                    }
                } else {
                    old(pref_manager).view_prefs()
                }
            }),
    {
        let mut action = MoveAction::NoAction;
        if btn.intersects(PadButtons::any()) {
            if !self.btn_pressed {
                self.btn_pressed = true;
                if btn.intersects(PadButtons::a()) {
                    if !self.replay_mode {
                        pref_manager.record_start_game(self.grade, self.level);
                        action = MoveAction::StartInGame;
                    }
                }
                if has_replay_data && btn.intersects(PadButtons::b()) {
                    self.replay_mode = !self.replay_mode;
                }
            }
        } else {
            self.btn_pressed = false;
        }
        action
    }

    fn count_frame(&mut self)
        requires
            old(self).wf(),
            old(self).view().cnt < u32::MAX,
        ensures
            final(self).wf(),
            final(self).view() == (TitleView {
                cnt: old(self).view().cnt + 1,
                replay_cnt: if old(self).view().replay_mode {
                    if old(self).view().replay_cnt < REPLAY_CHANGE_DURATION {
                        old(self).view().replay_cnt + 1
                    } else {
                        old(self).view().replay_cnt
                    }
                } else if old(self).view().replay_cnt > 0 {
                    old(self).view().replay_cnt - 1
                } else {
                    old(self).view().replay_cnt
                },
                ..old(self).view()
            }),
    {
        self.cnt = self.cnt + 1;
        if self.replay_mode {
            if self.replay_cnt < REPLAY_CHANGE_DURATION {
                self.replay_cnt = self.replay_cnt + 1;
            }
        } else {
            if self.replay_cnt > 0 {
                self.replay_cnt = self.replay_cnt - 1;
            }
        }
    }

    /// Whether a frame with directions `dir` keeps the menu's arithmetic within
    /// `u32`, as `mov` requires; a frame that does not would overflow the level or a
    /// counter.
    pub fn step_in_range(&self, dir: PadDirection, pref_manager: &PrefManager) -> (r: bool)
        requires
            self.wf(),
        ensures
            r == title_step_in_range(self.view(), dir.value(), pref_manager.view_prefs()),
    {
        if self.cnt == u32::MAX {
            return false;
        }
        let ud = PadDirection::from_flags(true, true, false, false);
        assert(ud.value() == 3);
        if self.replay_mode || !dir.intersects(ud) {
            return true;
        }
        let lr = PadDirection::from_flags(false, false, true, true);
        assert(lr.value() == 12);
        let mut grade = self.grade;
        let mut level = self.level;
        let mut dir_pressed = self.dir_pressed;
        if dir.intersects(lr) && !dir_pressed {
            dir_pressed = true;
            let old_max_level = pref_manager.max_level(grade);
            if dir.intersects(PadDirection::right()) {
                grade = (grade + 1) % (GRADE_NUM as u32);
            }
            if dir.intersects(PadDirection::left()) {
                grade = (grade + GRADE_NUM as u32 - 1) % (GRADE_NUM as u32);
            }
            let max_level = pref_manager.max_level(grade);
            if level == old_max_level || level > max_level {
                level = max_level;
            }
        }
        let ghost g = title_grade_step(self.view(), dir.value(), pref_manager.view_prefs());
        assert(g.grade == grade && g.level == level && g.dir_pressed == dir_pressed);
        let krc = self.key_repeat_cnt;
        if krc >= 30 * 65535 {
            return false;
        }
        let mut k = krc;
        let mut mv: u64 = 0;
        if !dir_pressed {
            mv = 1;
        } else {
            k = krc + 1;
            if k >= AUTO_REPEAT_START_TIME && k % AUTO_REPEAT_CNT == 0 {
                let q = (k / AUTO_REPEAT_START_TIME) as u64;
                assert(q * q <= 65535 * 65535) by (nonlinear_arith)
                    requires
                        q <= 65535,
                ;
                mv = q * q;
            }
        }
        let max_level = pref_manager.max_level(grade) as u64;
        let mut l = level as u64;
        if dir.intersects(PadDirection::down()) {
            if l + mv > u32::MAX as u64 {
                return false;
            }
            l = l + mv;
            if l > max_level {
                l = if k >= AUTO_REPEAT_START_TIME {
                    max_level
                } else {
                    1
                };
            }
        }
        if dir.intersects(PadDirection::up()) {
            if l < mv {
                return false;
            }
        }
        true
    }

    pub fn grade(&self) -> (r: u32)
        ensures
            r == self.view().grade,
    {
        self.grade
    }

    pub fn level(&self) -> (r: u32)
        ensures
            r == self.view().level,
    {
        self.level
    }

    pub fn cnt(&self) -> (r: u32)
        ensures
            r == self.view().cnt,
    {
        self.cnt
    }

    pub fn is_replay_mode(&self) -> (r: bool)
        ensures
            r == self.view().replay_mode,
    {
        self.replay_mode
    }

    /// How far the switch to the replay view has gone, in frames out of
    /// `REPLAY_CHANGE_DURATION`.
    pub fn replay_cnt(&self) -> (r: u32)
        ensures
            r == self.view().replay_cnt,
    {
        self.replay_cnt
    }
}

} // verus!
