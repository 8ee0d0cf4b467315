use vstd::prelude::*;

verus! {

/// The number of difficulty grades.
pub const GRADE_NUM: usize = 3;

/// What the player has achieved at one grade.
#[derive(Debug, Clone, Copy, PartialEq, Eq, Structural)]
pub struct GradeData {
    pub reached_level: u32,
    pub hi_score: u32,
    pub start_level: u32,
    pub end_level: u32,
}

impl GradeData {
    /// The record of a grade never played: level 1 reached, no score.
    pub fn new() -> (gd: GradeData)
        ensures
            gd == (GradeData { reached_level: 1, hi_score: 0, start_level: 1, end_level: 1 }),
    {
        GradeData { reached_level: 1, hi_score: 0, start_level: 1, end_level: 1 }
    }
}

/// The saved preferences: the grade and level last chosen, and the record of each grade.
#[derive(Debug, Clone, Copy, PartialEq, Eq)]
pub struct GamePreferences {
    pub selected_grade: u32,
    pub selected_level: u32,
    pub grade_data: [GradeData; GRADE_NUM],
}

impl GamePreferences {
    /// The preferences of a fresh install: grade 0, level 1, no record.
    pub fn new() -> (p: GamePreferences)
        ensures
            p.selected_grade == 0,
            p.selected_level == 1,
            forall|i: int| 0 <= i < GRADE_NUM ==> #[trigger] p.grade_data@[i] == GradeData::new_spec(),
    {
        GamePreferences {
            selected_grade: 0,
            selected_level: 1,
            grade_data: [GradeData::new(), GradeData::new(), GradeData::new()],
        }
    }

    /// Resets a selected grade that lies past the last grade.
    pub fn clean(&mut self)
        ensures
            final(self).selected_grade == (if old(self).selected_grade > GRADE_NUM {
                0
            } else {
                old(self).selected_grade
            }),
            final(self).selected_level == old(self).selected_level,
            final(self).grade_data == old(self).grade_data,
    {
        if self.selected_grade > GRADE_NUM as u32 {
            self.selected_grade = 0;
        }
    }
}

impl GradeData {
    pub open spec fn new_spec() -> GradeData {
        GradeData { reached_level: 1, hi_score: 0, start_level: 1, end_level: 1 }
    }
}

/// The grade record after a game that ended at level `lv` with score `sc`: a better
/// score replaces the high score together with the levels it was made between, and
/// the reached level only grows.
pub open spec fn grade_after_result(gd: GradeData, start: u32, lv: u32, sc: u32) -> GradeData {
    let scored = if sc > gd.hi_score {
        GradeData { hi_score: sc, start_level: start, end_level: lv, ..gd }
    } else {
        gd
    };
    if lv > scored.reached_level {
        GradeData { reached_level: lv, ..scored }
    } else {
        scored
    }
}

/// Keeps the preferences and records the results of games.
pub struct PrefManager {
    prefs: GamePreferences,
}

impl PrefManager {
    pub closed spec fn view_prefs(&self) -> GamePreferences {
        self.prefs
    }

    /// A manager over the preferences read from storage, cleaned, or over fresh ones
    /// when none could be read.
    pub fn new(loaded: Option<GamePreferences>) -> (m: PrefManager)
        ensures
            match loaded {
                Some(p) => m.view_prefs() == GamePreferences {
                    selected_grade: if p.selected_grade > GRADE_NUM {
                        0
                    } else {
                        p.selected_grade
                    },
                    ..p
                },
                None => {
                    &&& m.view_prefs().selected_grade == 0
                    &&& m.view_prefs().selected_level == 1
                    &&& forall|i: int|
                        0 <= i < GRADE_NUM ==> #[trigger] m.view_prefs().grade_data@[i]
                            == GradeData::new_spec()
                },
            },
    {
        let prefs = match loaded {
            Some(p) => {
                let mut p = p;
                p.clean();
                p
            },
            None => GamePreferences::new(),
        };
        PrefManager { prefs }
    }

    /// The preferences as they stand, for saving.
    pub fn prefs(&self) -> (p: &GamePreferences)
        ensures
            *p == self.view_prefs(),
    {
        &self.prefs
    }

    /// The highest level reached at grade `gd`.
    pub fn max_level(&self, gd: u32) -> (r: u32)
        requires
            gd < GRADE_NUM,
        ensures
            r == self.view_prefs().grade_data@[gd as int].reached_level,
    {
        self.prefs.grade_data[gd as usize].reached_level
    }

    /// The record of grade `gd`.
    pub fn grade_data(&self, gd: u32) -> (r: &GradeData)
        requires
            gd < GRADE_NUM,
        ensures
            *r == self.view_prefs().grade_data@[gd as int],
    {
        &self.prefs.grade_data[gd as usize]
    }

    pub fn selected_grade(&self) -> (r: u32)
        ensures
            r == self.view_prefs().selected_grade,
    {
        self.prefs.selected_grade
    }

    pub fn selected_level(&self) -> (r: u32)
        ensures
            r == self.view_prefs().selected_level,
    {
        self.prefs.selected_level
    }

    /// Remembers the grade and level a game starts at.
    pub fn record_start_game(&mut self, gd: u32, lv: u32)
        ensures
            final(self).view_prefs() == (GamePreferences {
                selected_grade: gd,
                selected_level: lv,
                ..old(self).view_prefs()
            }),
    {
        self.prefs.selected_grade = gd;
        self.prefs.selected_level = lv;
    }

    /// Records the result of a game at the selected grade, which ended at level `lv`
    /// with score `sc`; the next game is offered from level `lv`.
    pub fn record_result(&mut self, lv: u32, sc: u32)
        requires
            old(self).view_prefs().selected_grade < GRADE_NUM,
        ensures
            final(self).view_prefs().selected_grade == old(self).view_prefs().selected_grade,
            final(self).view_prefs().selected_level == lv,
            final(self).view_prefs().grade_data@ == old(self).view_prefs().grade_data@.update(
                old(self).view_prefs().selected_grade as int,
                grade_after_result(
                    old(self).view_prefs().grade_data@[old(self).view_prefs().selected_grade as int],
                    old(self).view_prefs().selected_level,
                    lv,
                    sc,
                ),
            ),
    {
        let i = self.prefs.selected_grade as usize;
        let mut gd = self.prefs.grade_data[i];
        if sc > gd.hi_score {
            gd.hi_score = sc;
            gd.start_level = self.prefs.selected_level;
            gd.end_level = lv;
        }
        if lv > gd.reached_level {
            gd.reached_level = lv;
        }
        self.prefs.grade_data[i] = gd;
        self.prefs.selected_level = lv;
        proof {
            assert(self.prefs.grade_data@ =~= old(self).prefs.grade_data@.update(i as int, gd));
        }
    }
}

/// Recording a result never lowers a grade's high score or reached level, and the
/// high score afterwards is the better of the old one and the game's.
pub proof fn law_results_only_improve(gd: GradeData, start: u32, lv: u32, sc: u32)
    ensures
        grade_after_result(gd, start, lv, sc).hi_score >= gd.hi_score,
        grade_after_result(gd, start, lv, sc).hi_score >= sc,
        grade_after_result(gd, start, lv, sc).hi_score == gd.hi_score || grade_after_result(
            gd,
            start,
            lv,
            sc,
        ).hi_score == sc,
        grade_after_result(gd, start, lv, sc).reached_level >= gd.reached_level,
        grade_after_result(gd, start, lv, sc).reached_level >= lv,
{
}

/// What a game's result does to its grade's record: a score beating the high score
/// becomes the high score, stored with the level the game started at and the level
/// it ended at; a score that does not beat it leaves the high score and its levels as
/// they were; and the reached level becomes the higher of the old one and the level
/// the game ended at.
pub proof fn law_result_record(gd: GradeData, start: u32, lv: u32, sc: u32)
    ensures
        sc > gd.hi_score ==> {
            &&& grade_after_result(gd, start, lv, sc).hi_score == sc
            &&& grade_after_result(gd, start, lv, sc).start_level == start
            &&& grade_after_result(gd, start, lv, sc).end_level == lv
        },
        sc <= gd.hi_score ==> {
            &&& grade_after_result(gd, start, lv, sc).hi_score == gd.hi_score
            &&& grade_after_result(gd, start, lv, sc).start_level == gd.start_level
            &&& grade_after_result(gd, start, lv, sc).end_level == gd.end_level
        },
        grade_after_result(gd, start, lv, sc).reached_level == if lv > gd.reached_level {
            lv
        } else {
            gd.reached_level
        },
{
}

} // verus!
