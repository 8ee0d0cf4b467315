use vstd::prelude::*;

verus! {

pub const DEFAULT_EXTEND_SCORE: u32 = 100000;
pub const MAX_EXTEND_SCORE: u32 = 500000;
pub const DEFAULT_TIME: i32 = 120000;
pub const MAX_TIME: i32 = 120000;
pub const SHIP_DESTROYED_PENALTY_TIME: i32 = -15000;
pub const EXTEND_TIME: i32 = 15000;
pub const NEXT_ZONE_ADDITION_TIME: i32 = 30000;
pub const NEXT_LEVEL_ADDITION_TIME: i32 = 45000;
pub const BEEP_START_TIME: i32 = 15000;
/// How many frames a time change message stays on screen.
pub const TIME_CHANGED_SHOW_FRAMES: i32 = 240;
/// Milliseconds that one frame takes off the clock.
pub const FRAME_TIME: i32 = 17;

/// Why the remaining time last changed, which the screen announces.
#[derive(PartialEq, Eq, Clone, Copy, Debug, Structural)]
pub enum TimeChange {
    Nothing,
    ShipDestroyed,
    Extend,
    NextZone,
    NextLevel,
}

/// The announcement shown for a time change.
pub open spec fn time_change_text(c: TimeChange) -> Seq<char> {
    match c {
        TimeChange::Nothing => ""@,
        TimeChange::ShipDestroyed => "-15 SEC."@,
        TimeChange::Extend => "+15 SEC."@,
        TimeChange::NextZone => "+30 SEC."@,
        TimeChange::NextLevel => "+45 SEC."@,
    }
}

impl TimeChange {
    /// The announcement shown for the change.
    pub fn message(&self) -> (r: &'static str)
        ensures
            r@ == time_change_text(*self),
    {
        match self {
            TimeChange::Nothing => "",
            TimeChange::ShipDestroyed => "-15 SEC.",
            TimeChange::Extend => "+15 SEC.",
            TimeChange::NextZone => "+30 SEC.",
            TimeChange::NextLevel => "+45 SEC.",
        }
    }
}

/// `t` rounded toward zero to whole thousands, as integer division does.
pub open spec fn whole_seconds_ms(t: int) -> int {
    if t >= 0 {
        (t / 1000) * 1000
    } else {
        -(((-t) / 1000) * 1000)
    }
}

/// When the clock starts to beep: at the whole second at or below the time, but no
/// later than the beep start.
pub open spec fn beep_time_spec(t: int) -> int {
    if whole_seconds_ms(t) < BEEP_START_TIME {
        whole_seconds_ms(t)
    } else {
        BEEP_START_TIME as int
    }
}

/// The score gap to the next extend, at level bonus `half_level` (the level halved,
/// rounded down): a tenth of the default gap per bonus point on top of the default,
/// capped.
pub open spec fn extend_step(half_level: u32) -> int {
    let s = (half_level + 10) * DEFAULT_EXTEND_SCORE / 10;
    if s < MAX_EXTEND_SCORE {
        s
    } else {
        MAX_EXTEND_SCORE as int
    }
}

/// The time after adding `ct`, capped at the maximum.
pub open spec fn time_plus(time: int, ct: int) -> int {
    if time + ct < MAX_TIME {
        time + ct
    } else {
        MAX_TIME as int
    }
}

/// The threshold and the time after the extends that a score reaching past the
/// threshold earns: each extend moves the threshold by `step` and adds time.
pub open spec fn extends(next_extend: int, score: int, step: int, time: int) -> (int, int)
    decreases score - next_extend + step,
{
    if step > 0 && score > next_extend {
        extends(next_extend + step, score, step, time_plus(time, EXTEND_TIME as int))
    } else {
        (next_extend, time)
    }
}

/// The game's score, extend threshold and remaining time.
pub struct SharedState {
    score: u32,
    next_extend: u32,
    time: i32,
    next_beep_time: i32,
    time_changed_msg: TimeChange,
    time_changed_show_cnt: i32,
}

impl SharedState {
    pub closed spec fn score_spec(&self) -> u32 {
        self.score
    }

    pub closed spec fn next_extend_spec(&self) -> u32 {
        self.next_extend
    }

    pub closed spec fn time_spec(&self) -> i32 {
        self.time
    }

    pub closed spec fn next_beep_time_spec(&self) -> i32 {
        self.next_beep_time
    }

    pub closed spec fn change_spec(&self) -> TimeChange {
        self.time_changed_msg
    }

    pub closed spec fn show_cnt_spec(&self) -> i32 {
        self.time_changed_show_cnt
    }

    /// The score never passes the extend threshold, the threshold is never more than
    /// one capped step ahead of the score, and the time never exceeds its maximum.
    pub open spec fn wf(&self) -> bool {
        &&& self.score_spec() <= self.next_extend_spec()
        &&& self.next_extend_spec() <= self.score_spec() + MAX_EXTEND_SCORE
        &&& self.time_spec() <= MAX_TIME
    }

    /// Whether the state after a time change of `ct` for reason `why` is `post`.
    pub open spec fn changed_time(&self, post: SharedState, ct: int, why: TimeChange) -> bool {
        &&& post.time_spec() == time_plus(self.time_spec() as int, ct)
        &&& post.next_beep_time_spec() == beep_time_spec(post.time_spec() as int)
        &&& post.show_cnt_spec() == TIME_CHANGED_SHOW_FRAMES
        &&& post.change_spec() == why
        &&& post.score_spec() == self.score_spec()
        &&& post.next_extend_spec() == self.next_extend_spec()
    }

    pub fn new() -> (s: SharedState)
        ensures
            s.wf(),
            s.score_spec() == 0,
            s.next_extend_spec() == 0,
            s.time_spec() == 0,
            s.next_beep_time_spec() == 0,
            s.change_spec() == TimeChange::Nothing,
            s.show_cnt_spec() == -1,
    {
        SharedState {
            score: 0,
            next_extend: 0,
            time: 0,
            next_beep_time: 0,
            time_changed_msg: TimeChange::Nothing,
            time_changed_show_cnt: -1,
        }
    }

    fn beep_time_for(time: i32) -> (r: i32)
        requires
            time > i32::MIN,
        ensures
            r == beep_time_spec(time as int),
    {
        let whole = if time >= 0 {
            time / 1000 * 1000
        } else {
            -((-time) / 1000 * 1000)
        };
        if whole < BEEP_START_TIME {
            whole
        } else {
            BEEP_START_TIME
        }
    }

    fn change_time(&mut self, ct: i32, why: TimeChange)
        requires
            i32::MIN < old(self).time_spec() as int + ct <= i32::MAX,
        ensures
            old(self).changed_time(*final(self), ct as int, why),
    {
        let t = self.time + ct;
        self.time = if t < MAX_TIME {
            t
        } else {
            MAX_TIME
        };
        self.next_beep_time = SharedState::beep_time_for(self.time);
        self.time_changed_show_cnt = TIME_CHANGED_SHOW_FRAMES;
        self.time_changed_msg = why;
    }

    fn set_next_extend(&mut self, half_level: u32)
        requires
            (half_level + 10) * DEFAULT_EXTEND_SCORE <= u32::MAX,
            old(self).next_extend_spec() + MAX_EXTEND_SCORE <= u32::MAX,
        ensures
            final(self).next_extend_spec() == old(self).next_extend_spec() + extend_step(half_level),
            final(self).score_spec() == old(self).score_spec(),
            final(self).time_spec() == old(self).time_spec(),
            final(self).next_beep_time_spec() == old(self).next_beep_time_spec(),
            final(self).change_spec() == old(self).change_spec(),
            final(self).show_cnt_spec() == old(self).show_cnt_spec(),
    {
        let s = (half_level + 10) * DEFAULT_EXTEND_SCORE / 10;
        let step = if s < MAX_EXTEND_SCORE {
            s
        } else {
            MAX_EXTEND_SCORE
        };
        self.next_extend = self.next_extend + step;
    }

    /// Starts a game: no score, the first extend one step away, the full time.
    pub fn init_game_state(&mut self, half_level: u32)
        requires
            (half_level + 10) * DEFAULT_EXTEND_SCORE <= u32::MAX,
        ensures
            final(self).wf(),
            final(self).score_spec() == 0,
            final(self).next_extend_spec() == extend_step(half_level),
            final(self).time_spec() == DEFAULT_TIME,
            final(self).next_beep_time_spec() == BEEP_START_TIME,
            final(self).show_cnt_spec() == -1,
            final(self).change_spec() == old(self).change_spec(),
    {
        self.score = 0;
        self.next_extend = 0;
        self.set_next_extend(half_level);
        self.time_changed_show_cnt = -1;
        self.goto_next_zone(true, false);
    }

    /// Enters the next zone: the first zone of a game restarts the clock; later ones
    /// add time, more at a new level than at a medium boss zone.
    pub fn goto_next_zone(&mut self, is_first: bool, medium_boss_zone: bool)
        requires
            !is_first ==> old(self).time_spec() <= MAX_TIME,
        ensures
            is_first ==> {
                &&& final(self).time_spec() == DEFAULT_TIME
                &&& final(self).next_beep_time_spec() == BEEP_START_TIME
                &&& final(self).score_spec() == old(self).score_spec()
                &&& final(self).next_extend_spec() == old(self).next_extend_spec()
                &&& final(self).change_spec() == old(self).change_spec()
                &&& final(self).show_cnt_spec() == old(self).show_cnt_spec()
            },
            !is_first && medium_boss_zone ==> old(self).changed_time(
                *final(self),
                NEXT_ZONE_ADDITION_TIME as int,
                TimeChange::NextZone,
            ),
            !is_first && !medium_boss_zone ==> old(self).changed_time(
                *final(self),
                NEXT_LEVEL_ADDITION_TIME as int,
                TimeChange::NextLevel,
            ),
            old(self).wf() ==> final(self).wf(),
            final(self).time_spec() <= MAX_TIME,
    {
        if is_first {
            self.time = DEFAULT_TIME;
            self.next_beep_time = BEEP_START_TIME;
        } else {
            if medium_boss_zone {
                self.change_time(NEXT_ZONE_ADDITION_TIME, TimeChange::NextZone);
            } else {
                self.change_time(NEXT_LEVEL_ADDITION_TIME, TimeChange::NextLevel);
            }
        }
    }

    /// Adds `score` unless the game is over; each time the score passes the extend
    /// threshold, the threshold moves one step further and the clock gains time.
    pub fn add_score(&mut self, score: u32, game_over: bool, half_level: u32)
        requires
            old(self).wf(),
            old(self).score_spec() + score + MAX_EXTEND_SCORE <= u32::MAX,
            (half_level + 10) * DEFAULT_EXTEND_SCORE <= u32::MAX,
        ensures
            final(self).wf(),
            game_over ==> *final(self) == *old(self),
            !game_over ==> {
                let e = extends(
                    old(self).next_extend_spec() as int,
                    old(self).score_spec() + score,
                    extend_step(half_level),
                    old(self).time_spec() as int,
                );
                &&& final(self).score_spec() == old(self).score_spec() + score
                &&& final(self).next_extend_spec() == e.0
                &&& final(self).time_spec() == e.1
                &&& if old(self).score_spec() + score > old(self).next_extend_spec() {
                    &&& final(self).show_cnt_spec() == TIME_CHANGED_SHOW_FRAMES
                    &&& final(self).change_spec() == TimeChange::Extend
                    &&& final(self).next_beep_time_spec() == beep_time_spec(
                        final(self).time_spec() as int,
                    )
                } else {
                    &&& final(self).show_cnt_spec() == old(self).show_cnt_spec()
                    &&& final(self).change_spec() == old(self).change_spec()
                    &&& final(self).next_beep_time_spec() == old(self).next_beep_time_spec()
                }
            },
    {
        if !game_over {
            self.score = self.score + score;
            let ghost step = extend_step(half_level);
            while self.score > self.next_extend
                invariant
                    self.score == old(self).score + score,
                    self.next_extend <= self.score + MAX_EXTEND_SCORE,
                    self.time <= MAX_TIME,
                    self.score + MAX_EXTEND_SCORE <= u32::MAX,
                    (half_level + 10) * DEFAULT_EXTEND_SCORE <= u32::MAX,
                    step == extend_step(half_level),
                    extends(self.next_extend as int, self.score as int, step, self.time as int)
                        == extends(
                        old(self).next_extend as int,
                        self.score as int,
                        step,
                        old(self).time as int,
                    ),
                    self.next_extend >= old(self).next_extend,
                    self.next_extend == old(self).next_extend ==> {
                        &&& self.time == old(self).time
                        &&& self.time_changed_show_cnt == old(self).time_changed_show_cnt
                        &&& self.time_changed_msg == old(self).time_changed_msg
                        &&& self.next_beep_time == old(self).next_beep_time
                    },
                    self.next_extend != old(self).next_extend ==> {
                        &&& self.time_changed_show_cnt == TIME_CHANGED_SHOW_FRAMES
                        &&& self.time_changed_msg == TimeChange::Extend
                        &&& self.next_beep_time == beep_time_spec(self.time as int)
                    },
                decreases self.score - self.next_extend + MAX_EXTEND_SCORE,
            {
                self.set_next_extend(half_level);
                self.extend_ship();
            }
        }
    }

    fn extend_ship(&mut self)
        requires
            old(self).time_spec() <= MAX_TIME,
        ensures
            old(self).changed_time(*final(self), EXTEND_TIME as int, TimeChange::Extend),
    {
        self.change_time(EXTEND_TIME, TimeChange::Extend);
    }

    /// One frame passes: the clock runs down and a shown message counts down. Returns
    /// whether a replay must end because its time ran out.
    pub fn decrement_time(&mut self, replay_mode: bool) -> (game_over: bool)
        requires
            old(self).time_spec() >= i32::MIN + FRAME_TIME,
        ensures
            final(self).time_spec() == old(self).time_spec() - FRAME_TIME,
            final(self).show_cnt_spec() == if old(self).show_cnt_spec() >= 0 {
                old(self).show_cnt_spec() - 1
            } else {
                old(self).show_cnt_spec() as int
            },
            final(self).score_spec() == old(self).score_spec(),
            final(self).next_extend_spec() == old(self).next_extend_spec(),
            final(self).next_beep_time_spec() == old(self).next_beep_time_spec(),
            final(self).change_spec() == old(self).change_spec(),
            game_over == (replay_mode && final(self).time_spec() < 0),
            old(self).wf() ==> final(self).wf(),
    {
        self.time = self.time - FRAME_TIME;
        if self.time_changed_show_cnt >= 0 {
            self.time_changed_show_cnt = self.time_changed_show_cnt - 1;
        }
        replay_mode && self.time < 0
    }

    /// The ship was destroyed: the clock loses the penalty time.
    pub fn ship_destroyed(&mut self)
        requires
            old(self).wf(),
            old(self).time_spec() > i32::MIN - SHIP_DESTROYED_PENALTY_TIME,
        ensures
            old(self).changed_time(
                *final(self),
                SHIP_DESTROYED_PENALTY_TIME as int,
                TimeChange::ShipDestroyed,
            ),
            final(self).wf(),
    {
        self.change_time(SHIP_DESTROYED_PENALTY_TIME, TimeChange::ShipDestroyed);
    }

    /// When the clock has run below zero, sets it to zero and reports it.
    pub fn check_time_overflow(&mut self) -> (overflowed: bool)
        ensures
            overflowed == (old(self).time_spec() < 0),
            final(self).time_spec() == if overflowed {
                0
            } else {
                old(self).time_spec()
            },
            final(self).score_spec() == old(self).score_spec(),
            final(self).next_extend_spec() == old(self).next_extend_spec(),
            final(self).next_beep_time_spec() == old(self).next_beep_time_spec(),
            final(self).change_spec() == old(self).change_spec(),
            final(self).show_cnt_spec() == old(self).show_cnt_spec(),
            old(self).wf() ==> final(self).wf(),
    {
        if self.time < 0 {
            self.time = 0;
            true
        } else {
            false
        }
    }

    pub fn score(&self) -> (r: u32)
        ensures
            r == self.score_spec(),
    {
        self.score
    }

    pub fn time(&self) -> (r: i32)
        ensures
            r == self.time_spec(),
    {
        self.time
    }

    /// The points still needed for the next extend.
    pub fn score_to_next_extend(&self) -> (r: u32)
        requires
            self.wf(),
        ensures
            r == self.next_extend_spec() - self.score_spec(),
    {
        self.next_extend - self.score
    }

    /// Whether the clock is in its last seconds, where it is drawn in the warning colour.
    pub fn time_is_short(&self) -> (r: bool)
        ensures
            r == (self.time_spec() <= BEEP_START_TIME),
    {
        self.time <= BEEP_START_TIME
    }

    /// Whether the time change message is visible this frame: it blinks while shown.
    pub fn time_message_visible(&self) -> (r: bool)
        ensures
            r == (self.show_cnt_spec() >= 0 && self.show_cnt_spec() % 64 > 32),
    {
        self.time_changed_show_cnt >= 0 && self.time_changed_show_cnt % 64 > 32
    }

    /// The announcement of the last time change.
    pub fn time_message(&self) -> (r: TimeChange)
        ensures
            r == self.change_spec(),
    {
        self.time_changed_msg
    }
}

/// Scoring moves the extend threshold past the new score, and by no more than one
/// step beyond it, unless no extend was earned; the clock only gains time from
/// extends and never passes its maximum.
pub proof fn law_extends_pass_the_score(next: int, score: int, step: int, time: int)
    requires
        step > 0,
        time <= MAX_TIME,
    ensures
        extends(next, score, step, time).0 >= score,
        extends(next, score, step, time).0 == next || extends(next, score, step, time).0 - step
            < score,
        time <= extends(next, score, step, time).1 <= MAX_TIME,
    decreases score - next + step,
{
    if score > next {
        law_extends_pass_the_score(next + step, score, step, time_plus(time, EXTEND_TIME as int));
    }
}

/// Each extend earned adds exactly fifteen seconds (15000 ms) to the clock, which
/// stops at its 120000 ms maximum: when the score passes the threshold, it earns one
/// extend per step of the threshold up to the score, `k` of them, the threshold moves
/// `k` steps on, and the time becomes `min(time + k * 15000, 120000)`; otherwise
/// nothing changes.
pub proof fn law_each_extend_adds_fifteen_seconds(next: int, score: int, step: int, time: int)
    requires
        step > 0,
    ensures
        score <= next ==> extends(next, score, step, time) == (next, time),
        score > next ==> ({
            let k = (score - next - 1) / step + 1;
            &&& k >= 1
            &&& extends(next, score, step, time).0 == next + k * step
            &&& extends(next, score, step, time).1 == if time + k * 15000 < 120000 {
                time + k * 15000
            } else {
                120000
            }
        }),
    decreases score - next + step,
{
    if score > next {
        let n1 = next + step;
        let t1 = time_plus(time, EXTEND_TIME as int);
        let x = score - next - 1;
        let k = x / step + 1;
        assert(x / step >= 0) by (nonlinear_arith)
            requires
                x >= 0,
                step > 0,
        ;
        law_each_extend_adds_fifteen_seconds(n1, score, step, t1);
        if score <= n1 {
            assert(x / step == 0) by (nonlinear_arith)
                requires
                    0 <= x < step,
            ;
        } else {
            assert((x - step) / step == x / step - 1) by (nonlinear_arith)
                requires
                    x >= step,
                    step > 0,
            ;
            assert((k - 1) * step + step == k * step) by (nonlinear_arith);
        }
    }
}

/// The score between two extends is 100000 plus 10000 per point of the level bonus
/// (half the level), and never more than 500000.
pub proof fn law_extend_step(half_level: u32)
    ensures
        extend_step(half_level) == if half_level < 40 {
            100000 + 10000 * half_level
        } else {
            500000
        },
{
}

} // verus!
