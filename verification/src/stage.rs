use vstd::prelude::*;
use crate::prefs::GRADE_NUM;

verus! {

/// Ranks that a zone lasts, per grade.
pub open spec fn boss_app_rank_spec(grade: u32) -> int {
    if grade == 0 {
        100
    } else if grade == 1 {
        160
    } else {
        250
    }
}

/// The number of tunnel colour patterns.
pub const TUNNEL_COLOR_PATTERN_NUM: usize = 7;
/// Frames that a change of tunnel colour takes.
pub const TUNNEL_COLOR_CHANGE_INTERVAL: u32 = 60;
/// The most bosses that a zone sends.
pub const MAX_BOSS_NUM: u32 = 4;
/// Frames between the end of boss mode and the next zone.
pub const BOSS_MODE_END_FRAMES: i32 = 60;

/// The zones of a game: their ranks and bosses, and the tunnel colours they cycle
/// through.
pub struct StageManager {
    boss_num: u32,
    zone_end_rank: u32,
    grade: u32,
    boss_mode_end_cnt: i32,
    medium_boss_zone: bool,
    tunnel_color_poly_idx: usize,
    tunnel_color_line_idx: usize,
    tunnel_color_change_cnt: u32,
    dark_line: bool,
}

impl StageManager {
    pub closed spec fn boss_num_spec(&self) -> int {
        self.boss_num as int
    }

    pub closed spec fn zone_end_rank_spec(&self) -> int {
        self.zone_end_rank as int
    }

    pub closed spec fn grade_spec(&self) -> u32 {
        self.grade
    }

    pub closed spec fn boss_mode_end_cnt_spec(&self) -> int {
        self.boss_mode_end_cnt as int
    }

    pub closed spec fn medium_boss_zone_spec(&self) -> bool {
        self.medium_boss_zone
    }

    pub closed spec fn poly_idx(&self) -> int {
        self.tunnel_color_poly_idx as int
    }

    pub closed spec fn line_idx(&self) -> int {
        self.tunnel_color_line_idx as int
    }

    pub closed spec fn color_change_cnt(&self) -> int {
        self.tunnel_color_change_cnt as int
    }

    pub closed spec fn dark_line_spec(&self) -> bool {
        self.dark_line
    }

    /// The grade is a grade, and the colour indexes stand past the first pattern so
    /// that the previous pattern is always at hand.
    pub open spec fn wf(&self) -> bool {
        &&& self.grade_spec() < GRADE_NUM
        &&& self.poly_idx() >= 1
        &&& self.line_idx() >= 1
    }

    pub fn new() -> (s: StageManager)
        ensures
            s.wf(),
            s.poly_idx() == TUNNEL_COLOR_PATTERN_NUM - 2,
            s.line_idx() == TUNNEL_COLOR_PATTERN_NUM - 2,
            s.color_change_cnt() == TUNNEL_COLOR_CHANGE_INTERVAL,
            s.dark_line_spec(),
            s.boss_num_spec() == 0,
            s.zone_end_rank_spec() == 0,
            s.grade_spec() == 0,
            !s.medium_boss_zone_spec(),
    {
        StageManager {
            boss_num: 0,
            zone_end_rank: 0,
            grade: 0,
            boss_mode_end_cnt: 0,
            medium_boss_zone: false,
            tunnel_color_poly_idx: TUNNEL_COLOR_PATTERN_NUM - 2,
            tunnel_color_line_idx: TUNNEL_COLOR_PATTERN_NUM - 2,
            tunnel_color_change_cnt: TUNNEL_COLOR_CHANGE_INTERVAL,
            dark_line: true,
        }
    }

    /// Starts a game at level `level` and grade `grade`: the tunnel colours start at
    /// the level's pattern.
    pub fn start(&mut self, level: u32, grade: u32)
        requires
            grade < GRADE_NUM,
            level as int + TUNNEL_COLOR_PATTERN_NUM <= usize::MAX,
        ensures
            final(self).wf(),
            final(self).grade_spec() == grade,
            final(self).zone_end_rank_spec() == 0,
            !final(self).medium_boss_zone_spec(),
            final(self).dark_line_spec(),
            final(self).poly_idx() == TUNNEL_COLOR_PATTERN_NUM + level - 2,
            final(self).line_idx() == TUNNEL_COLOR_PATTERN_NUM + level - 2,
            final(self).boss_num_spec() == old(self).boss_num_spec(),
            final(self).boss_mode_end_cnt_spec() == old(self).boss_mode_end_cnt_spec(),
            final(self).color_change_cnt() == old(self).color_change_cnt(),
    {
        self.grade = grade;
        self.zone_end_rank = 0;
        self.medium_boss_zone = false;
        self.dark_line = true;
        self.tunnel_color_poly_idx = TUNNEL_COLOR_PATTERN_NUM + level as usize - 2;
        self.tunnel_color_line_idx = TUNNEL_COLOR_PATTERN_NUM + level as usize - 2;
    }

    /// Enters the next zone: zones alternate between medium boss zones and the
    /// others, and the tunnel moves to the next colour every second zone.
    pub fn begin_next_zone(&mut self)
        requires
            old(self).wf(),
            old(self).poly_idx() < usize::MAX,
            old(self).line_idx() < usize::MAX,
        ensures
            final(self).wf(),
            final(self).medium_boss_zone_spec() == !old(self).medium_boss_zone_spec(),
            final(self).dark_line_spec() == !old(self).dark_line_spec(),
            final(self).poly_idx() == old(self).poly_idx() + if old(self).dark_line_spec() {
                1int
            } else {
                0int
            },
            final(self).line_idx() == old(self).line_idx() + if old(self).dark_line_spec() {
                1int
            } else {
                0int
            },
            final(self).color_change_cnt() == TUNNEL_COLOR_CHANGE_INTERVAL,
            final(self).grade_spec() == old(self).grade_spec(),
            final(self).zone_end_rank_spec() == old(self).zone_end_rank_spec(),
            final(self).boss_num_spec() == old(self).boss_num_spec(),
            final(self).boss_mode_end_cnt_spec() == old(self).boss_mode_end_cnt_spec(),
    {
        self.medium_boss_zone = !self.medium_boss_zone;
        if self.dark_line {
            self.tunnel_color_poly_idx = self.tunnel_color_poly_idx + 1;
            self.tunnel_color_line_idx = self.tunnel_color_line_idx + 1;
        }
        self.dark_line = !self.dark_line;
        self.tunnel_color_change_cnt = TUNNEL_COLOR_CHANGE_INTERVAL;
    }

    /// How many bosses a zone sends: with several allowed (`many`), one more than the
    /// draw, at most four; otherwise one.
    pub fn boss_count(many: bool, draw: usize) -> (n: u32)
        ensures
            n == if many {
                if draw + 1 > MAX_BOSS_NUM {
                    MAX_BOSS_NUM as int
                } else {
                    draw + 1
                }
            } else {
                1
            },
            1 <= n <= MAX_BOSS_NUM,
    {
        if many {
            if draw >= MAX_BOSS_NUM as usize {
                MAX_BOSS_NUM
            } else {
                1 + draw as u32
            }
        } else {
            1
        }
    }

    /// The ranks that a zone lasts at the game's grade.
    pub fn boss_app_rank(&self) -> (r: u32)
        requires
            self.wf(),
        ensures
            r == boss_app_rank_spec(self.grade_spec()),
    {
        if self.grade == 0 {
            100
        } else if self.grade == 1 {
            160
        } else {
            250
        }
    }

    /// Places the zone's `boss_num` bosses: they appear `boss_num` ranks before the
    /// zone's end, which lies one zone length past the previous one. Returns the rank
    /// at which the bosses appear, their number and the zone's end rank.
    pub fn set_bosses(&mut self, boss_num: u32) -> (r: (u32, u32, u32))
        requires
            old(self).wf(),
            1 <= boss_num <= MAX_BOSS_NUM,
            old(self).zone_end_rank_spec() + 250 <= u32::MAX,
        ensures
            final(self).wf(),
            r.1 == boss_num,
            r.2 == old(self).zone_end_rank_spec() + boss_app_rank_spec(old(self).grade_spec()),
            r.0 == r.2 - boss_num,
            final(self).zone_end_rank_spec() == r.2,
            final(self).boss_num_spec() == boss_num,
            final(self).boss_mode_end_cnt_spec() == -1,
            final(self).grade_spec() == old(self).grade_spec(),
            final(self).medium_boss_zone_spec() == old(self).medium_boss_zone_spec(),
            final(self).dark_line_spec() == old(self).dark_line_spec(),
            final(self).poly_idx() == old(self).poly_idx(),
            final(self).line_idx() == old(self).line_idx(),
            final(self).color_change_cnt() == old(self).color_change_cnt(),
    {
        let zone = self.boss_app_rank();
        let boss_app_rank = zone - boss_num + self.zone_end_rank;
        self.zone_end_rank = self.zone_end_rank + zone;
        self.boss_num = boss_num;
        self.boss_mode_end_cnt = -1;
        (boss_app_rank, boss_num, self.zone_end_rank)
    }

    /// A boss has appeared.
    pub fn boss_spawned(&mut self)
        requires
            old(self).boss_num_spec() > 0,
        ensures
            final(self).boss_num_spec() == old(self).boss_num_spec() - 1,
            final(self).zone_end_rank_spec() == old(self).zone_end_rank_spec(),
            final(self).grade_spec() == old(self).grade_spec(),
            final(self).boss_mode_end_cnt_spec() == old(self).boss_mode_end_cnt_spec(),
            final(self).medium_boss_zone_spec() == old(self).medium_boss_zone_spec(),
            final(self).dark_line_spec() == old(self).dark_line_spec(),
            final(self).poly_idx() == old(self).poly_idx(),
            final(self).line_idx() == old(self).line_idx(),
            final(self).color_change_cnt() == old(self).color_change_cnt(),
    {
        self.boss_num = self.boss_num - 1;
    }

    /// Whether every boss has appeared and no enemy is left, which ends the zone.
    pub fn zone_cleared(&self, enemy_num: usize) -> (r: bool)
        ensures
            r == (self.boss_num_spec() == 0 && enemy_num == 0),
    {
        self.boss_num == 0 && enemy_num == 0
    }

    /// Boss mode is over (the ship was destroyed or passed every boss): the next zone
    /// comes after a pause.
    pub fn end_boss_mode(&mut self)
        ensures
            final(self).boss_mode_end_cnt_spec() == BOSS_MODE_END_FRAMES,
            final(self).boss_num_spec() == old(self).boss_num_spec(),
            final(self).zone_end_rank_spec() == old(self).zone_end_rank_spec(),
            final(self).grade_spec() == old(self).grade_spec(),
            final(self).medium_boss_zone_spec() == old(self).medium_boss_zone_spec(),
            final(self).dark_line_spec() == old(self).dark_line_spec(),
            final(self).poly_idx() == old(self).poly_idx(),
            final(self).line_idx() == old(self).line_idx(),
            final(self).color_change_cnt() == old(self).color_change_cnt(),
    {
        self.boss_mode_end_cnt = BOSS_MODE_END_FRAMES;
    }

    /// One frame of the pause after boss mode. Returns `Some(next)` while the pause
    /// runs, `next` telling whether it ends now and the next zone begins; `None` when
    /// no pause runs.
    pub fn tick_boss_mode_end(&mut self) -> (r: Option<bool>)
        ensures
            r == if old(self).boss_mode_end_cnt_spec() >= 0 {
                Some(old(self).boss_mode_end_cnt_spec() - 1 < 0)
            } else {
                None
            },
            final(self).boss_mode_end_cnt_spec() == if old(self).boss_mode_end_cnt_spec() >= 0 {
                old(self).boss_mode_end_cnt_spec() - 1
            } else {
                old(self).boss_mode_end_cnt_spec()
            },
            final(self).boss_num_spec() == old(self).boss_num_spec(),
            final(self).zone_end_rank_spec() == old(self).zone_end_rank_spec(),
            final(self).grade_spec() == old(self).grade_spec(),
            final(self).medium_boss_zone_spec() == old(self).medium_boss_zone_spec(),
            final(self).dark_line_spec() == old(self).dark_line_spec(),
            final(self).poly_idx() == old(self).poly_idx(),
            final(self).line_idx() == old(self).line_idx(),
            final(self).color_change_cnt() == old(self).color_change_cnt(),
    {
        if self.boss_mode_end_cnt >= 0 {
            self.boss_mode_end_cnt = self.boss_mode_end_cnt - 1;
            Some(self.boss_mode_end_cnt < 0)
        } else {
            None
        }
    }

    /// One frame of a tunnel colour change. Returns the frames left of it, or `None`
    /// when no change runs.
    pub fn tick_color_change(&mut self) -> (r: Option<u32>)
        ensures
            r == if old(self).color_change_cnt() > 0 {
                Some((old(self).color_change_cnt() - 1) as u32)
            } else {
                None
            },
            final(self).color_change_cnt() == if old(self).color_change_cnt() > 0 {
                old(self).color_change_cnt() - 1
            } else {
                0
            },
            final(self).boss_num_spec() == old(self).boss_num_spec(),
            final(self).zone_end_rank_spec() == old(self).zone_end_rank_spec(),
            final(self).grade_spec() == old(self).grade_spec(),
            final(self).boss_mode_end_cnt_spec() == old(self).boss_mode_end_cnt_spec(),
            final(self).medium_boss_zone_spec() == old(self).medium_boss_zone_spec(),
            final(self).dark_line_spec() == old(self).dark_line_spec(),
            final(self).poly_idx() == old(self).poly_idx(),
            final(self).line_idx() == old(self).line_idx(),
    {
        if self.tunnel_color_change_cnt > 0 {
            self.tunnel_color_change_cnt = self.tunnel_color_change_cnt - 1;
            Some(self.tunnel_color_change_cnt)
        } else {
            None
        }
    }

    /// The colour patterns of the tunnel's faces: the previous one and the current
    /// one, which a change blends between.
    pub fn poly_colors(&self) -> (r: (usize, usize))
        requires
            self.wf(),
        ensures
            r.0 == (self.poly_idx() - 1) % (TUNNEL_COLOR_PATTERN_NUM as int),
            r.1 == self.poly_idx() % (TUNNEL_COLOR_PATTERN_NUM as int),
            r.0 < TUNNEL_COLOR_PATTERN_NUM,
            r.1 < TUNNEL_COLOR_PATTERN_NUM,
    {
        (
            (self.tunnel_color_poly_idx - 1) % TUNNEL_COLOR_PATTERN_NUM,
            self.tunnel_color_poly_idx % TUNNEL_COLOR_PATTERN_NUM,
        )
    }

    /// The colour patterns of the tunnel's lines: the previous one and the current
    /// one.
    pub fn line_colors(&self) -> (r: (usize, usize))
        requires
            self.wf(),
        ensures
            r.0 == (self.line_idx() - 1) % (TUNNEL_COLOR_PATTERN_NUM as int),
            r.1 == self.line_idx() % (TUNNEL_COLOR_PATTERN_NUM as int),
            r.0 < TUNNEL_COLOR_PATTERN_NUM,
            r.1 < TUNNEL_COLOR_PATTERN_NUM,
    {
        (
            (self.tunnel_color_line_idx - 1) % TUNNEL_COLOR_PATTERN_NUM,
            self.tunnel_color_line_idx % TUNNEL_COLOR_PATTERN_NUM,
        )
    }

    pub fn medium_boss_zone(&self) -> (r: bool)
        ensures
            r == self.medium_boss_zone_spec(),
    {
        self.medium_boss_zone
    }

    pub fn is_dark_line(&self) -> (r: bool)
        ensures
            r == self.dark_line_spec(),
    {
        self.dark_line
    }

    pub fn boss_num(&self) -> (r: u32)
        ensures
            r == self.boss_num_spec(),
    {
        self.boss_num
    }
}

/// Each zone ends one zone length past the previous one, and its bosses appear as
/// many ranks before its end as there are bosses.
pub proof fn law_zones_follow_each_other(zone_end: int, grade: u32, boss_num: int)
    requires
        grade < GRADE_NUM,
        1 <= boss_num <= MAX_BOSS_NUM,
        zone_end >= 0,
    ensures
        ({
            let end = zone_end + boss_app_rank_spec(grade);
            let appear = end - boss_num;
            &&& zone_end < appear < end
            &&& end - zone_end >= 100
        }),
{
}

/// A zone lasts 100 ranks at the first grade, 160 at the second and 250 at the third,
/// so `set_bosses` ends each zone that many ranks after the previous one; a higher
/// grade has longer zones.
pub proof fn law_zone_length_per_grade(grade: u32)
    requires
        grade < GRADE_NUM,
    ensures
        grade == 0 ==> boss_app_rank_spec(grade) == 100,
        grade == 1 ==> boss_app_rank_spec(grade) == 160,
        grade == 2 ==> boss_app_rank_spec(grade) == 250,
        grade > 0 ==> boss_app_rank_spec(grade) > boss_app_rank_spec((grade - 1) as u32),
{
}

} // verus!
