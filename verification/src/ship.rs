use vstd::prelude::*;
use crate::actor::{first_free_after, PoolActorRef};
use crate::pad::{PadButtons, PadDirection, PadState};
use crate::shot::{ShotPool, ShotView, CHARGE_RELEASE_MIN};

verus! {

/// Frames from a restart until the ship can be controlled.
pub const RESTART_CNT: i32 = 268;
/// Frames from the start of control until the ship can be hit.
pub const INVINCIBLE_CNT: i32 = 228;
/// The boss rank of a zone whose bosses are all gone.
pub const MAX_BOSS_APP_RANK: u32 = 9_999_999;
/// Frames between two shots of the main guns.
pub const FIRE_INTERVAL: u32 = 2;
/// One shot in this many of each gun is a star shell.
pub const STAR_SHELL_INTERVAL: u32 = 7;
/// The resting value of the side guns' counters: no side shot is due.
pub const SIDE_FIRE_OFF: u32 = 99999;

/// The ship's life and its progress through a zone: the frame counter that governs
/// restarts and invincibility, game over, and the rank that summons the zone's bosses.
pub struct Ship {
    replay_mode: bool,
    camera_mode: bool,
    draw_front_mode: bool,
    is_game_over: bool,
    btn_pressed: bool,
    cnt: i32,
    grade: u32,
    rank: u32,
    boss_app_rank: u32,
    boss_app_num: u32,
    zone_end_rank: u32,
    in_boss_mode: bool,
    is_boss_mode_end: bool,
    charging_shot: Option<PoolActorRef>,
    fire_cnt: u32,
    fire_shot_cnt: u32,
    side_fire_cnt: u32,
    side_fire_shot_cnt: u32,
}

/// The ship's state, as plain values.
pub struct ShipView {
    pub replay_mode: bool,
    pub camera_mode: bool,
    pub draw_front_mode: bool,
    pub is_game_over: bool,
    pub btn_pressed: bool,
    pub cnt: int,
    pub grade: u32,
    pub rank: int,
    pub boss_app_rank: int,
    pub boss_app_num: int,
    pub zone_end_rank: int,
    pub in_boss_mode: bool,
    pub is_boss_mode_end: bool,
    pub charging_shot: Option<PoolActorRef>,
    pub fire_cnt: int,
    pub fire_shot_cnt: int,
    pub side_fire_cnt: int,
    pub side_fire_shot_cnt: int,
}

/// What the guns did in a frame.
pub struct FireResult {
    /// The charge shot that began charging.
    pub charge_started: Option<PoolActorRef>,
    /// The charge shot let go, and whether it was too short and dropped.
    pub charge_released: Option<(PoolActorRef, bool)>,
    /// The main guns' shot, with the number of main shots fired before it.
    pub main_shot: Option<(PoolActorRef, u32)>,
    /// The side guns' shot, with the number of side shots fired before it.
    pub side_shot: Option<(PoolActorRef, u32)>,
}

/// The counters of a plain shot as it leaves a gun.
pub open spec fn fired_shot(star: bool) -> ShotView {
    ShotView {
        charge_cnt: 0,
        charge_se_cnt: 0,
        cnt: 0,
        charge_shot: false,
        in_charge: false,
        star_shell: star,
        multiplier: 1,
        damage: 1,
    }
}

/// The counters of a charge shot as it starts charging.
pub open spec fn charging_shot_view() -> ShotView {
    ShotView {
        charge_cnt: 0,
        charge_se_cnt: 0,
        cnt: 0,
        charge_shot: true,
        in_charge: true,
        star_shell: false,
        multiplier: 1,
        damage: 100,
    }
}

/// The guns' counters after a frame: `shooting` when the fire button is held without
/// the charge button, `side_fire_limit` the most frames a side shot may wait at the
/// ship's speed, and whether each gun found a shot to fire.
pub open spec fn fire_counters(
    s: ShipView,
    shooting: bool,
    side_fire_limit: int,
    main_fired: bool,
    side_fired: bool,
) -> ShipView {
    let fire_cnt = if shooting && s.fire_cnt == 0 {
        FIRE_INTERVAL as int
    } else {
        s.fire_cnt
    };
    let side_armed = if shooting && s.side_fire_cnt == 0 {
        SIDE_FIRE_OFF as int
    } else {
        s.side_fire_cnt
    };
    let side_fire_cnt = if side_armed > side_fire_limit {
        side_fire_limit
    } else {
        side_armed
    };
    ShipView {
        fire_cnt: if fire_cnt > 0 {
            fire_cnt - 1
        } else {
            fire_cnt
        },
        fire_shot_cnt: if main_fired {
            s.fire_shot_cnt + 1
        } else {
            s.fire_shot_cnt
        },
        side_fire_cnt: if side_fire_cnt > 0 {
            side_fire_cnt - 1
        } else {
            side_fire_cnt
        },
        side_fire_shot_cnt: if side_fired {
            s.side_fire_shot_cnt + 1
        } else {
            s.side_fire_shot_cnt
        },
        ..s
    }
}

/// The ship after a frame of the guns with buttons `btn`, given what they did.
pub open spec fn fire_spec(s: ShipView, btn: u8, side_fire_limit: int, f: FireResult) -> ShipView {
    let charge = btn & 2 != 0;
    let shooting = btn & 1 != 0 && !charge;
    ShipView {
        charging_shot: if !charge {
            None
        } else if s.charging_shot is None {
            f.charge_started
        } else {
            s.charging_shot
        },
        ..fire_counters(s, shooting, side_fire_limit, f.main_shot is Some, f.side_shot is Some)
    }
}

/// The slot states and cursor from which the side guns take their shot.
pub open spec fn after_main(
    states: Seq<Option<usize>>,
    cursor: int,
    main_shot: Option<(PoolActorRef, u32)>,
) -> (Seq<Option<usize>>, int) {
    match main_shot {
        Some((m, _)) => (states.update(m.slot(), Some(m.stamp())), m.slot()),
        None => (states, cursor),
    }
}

/// The shot pool's slot states after a frame of the guns that began from `states`
/// and `cursor`.
pub open spec fn states_after_fire(states: Seq<Option<usize>>, cursor: int, f: FireResult) -> Seq<
    Option<usize>,
> {
    match f.charge_started {
        Some(r) => states.update(r.slot(), Some(r.stamp())),
        None => {
            let s2 = after_main(
                states_after_release(states, f.charge_released),
                cursor,
                f.main_shot,
            ).0;
            match f.side_shot {
                Some((r, _)) => s2.update(r.slot(), Some(r.stamp())),
                None => s2,
            }
        },
    }
}

/// Takes an idle shot, if there is one, and fires it from a gun, as a star shell when
/// `star`.
fn fire_plain_shot(shots: &mut ShotPool, star: bool) -> (r: Option<PoolActorRef>)
    requires
        old(shots).pool().wf(),
        old(shots).pool().current_generation() < usize::MAX,
    ensures
        final(shots).pool().wf(),
        final(shots).pool().len() == old(shots).pool().len(),
        match r {
            None => {
                &&& first_free_after(old(shots).pool().states(), old(shots).pool().cursor(), 1)
                    is None
                &&& *final(shots) == *old(shots)
            },
            Some(r) => {
                &&& first_free_after(old(shots).pool().states(), old(shots).pool().cursor(), 1)
                    == Some(r.slot())
                &&& 0 <= r.slot() < old(shots).pool().len()
                &&& old(shots).pool().states()[r.slot()] is None
                &&& r.stamp() == old(shots).pool().current_generation() + 1
                &&& final(shots).pool().states() == old(shots).pool().states().update(
                    r.slot(),
                    Some(r.stamp()),
                )
                &&& final(shots).pool().cursor() == r.slot()
                &&& final(shots).pool().current_generation() == r.stamp()
                &&& final(shots).pool().actors()[r.slot()].view() == fired_shot(star)
                &&& forall|j: int|
                    0 <= j < old(shots).pool().len() && j != r.slot() ==> #[trigger] final(
                        shots).pool().actors()[j] == old(shots).pool().actors()[j]
            },
        },
{
    proof {
        shots.pool().lemma_wf_facts();
    }
    match shots.get_instance_and() {
        Some((shot, r)) => {
            shot.set_charge_star(false, star);
            Some(r)
        },
        None => None,
    }
}

/// The shot pool's slot states once a let-go charge shot has been dealt with.
pub open spec fn states_after_release(
    states: Seq<Option<usize>>,
    released: Option<(PoolActorRef, bool)>,
) -> Seq<Option<usize>> {
    match released {
        Some((r, true)) => states.update(r.slot(), None),
        _ => states,
    }
}

/// The ship after a kill (of a boss when `is_boss`), and whether the zone is left.
pub open spec fn rank_up_spec(s: ShipView, is_boss: bool) -> (ShipView, bool) {
    if (s.in_boss_mode && !is_boss) || s.is_game_over {
        (s, false)
    } else {
        let (t, leave) = if s.in_boss_mode && s.boss_app_num - 1 <= 0 {
            (
                ShipView {
                    boss_app_num: s.boss_app_num - 1,
                    rank: s.rank + 1,
                    in_boss_mode: false,
                    is_boss_mode_end: true,
                    boss_app_rank: MAX_BOSS_APP_RANK as int,
                    ..s
                },
                true,
            )
        } else if s.in_boss_mode {
            (ShipView { boss_app_num: s.boss_app_num - 1, ..s }, false)
        } else {
            (s, false)
        };
        let u = if t.rank < t.zone_end_rank {
            ShipView { rank: t.rank + 1, ..t }
        } else {
            t
        };
        let v = if u.rank >= u.boss_app_rank {
            ShipView { in_boss_mode: true, ..u }
        } else {
            u
        };
        (v, leave)
    }
}

/// The controls the ship obeys this frame and its state afterwards, given what the
/// pad reported (`None` once a replay has run out, which ends the game).
pub open spec fn controls_spec(s: ShipView, input: Option<(u8, u8)>) -> (ShipView, (u8, u8)) {
    let cnt = s.cnt + 1;
    let over = s.is_game_over || input is None;
    let (dir, btn) = match input {
        Some(p) => p,
        None => (0u8, 0u8),
    };
    let (btn, pressed) = if s.btn_pressed {
        if btn != 0 {
            (0u8, true)
        } else {
            (btn, false)
        }
    } else {
        (btn, false)
    };
    if over {
        let cnt2 = if cnt < -INVINCIBLE_CNT {
            -RESTART_CNT as int
        } else {
            cnt
        };
        (ShipView { cnt: cnt2, is_game_over: true, btn_pressed: pressed, ..s }, (0u8, 0u8))
    } else if cnt < -INVINCIBLE_CNT {
        (ShipView { cnt, btn_pressed: pressed, ..s }, (0u8, 0u8))
    } else {
        (ShipView { cnt, btn_pressed: pressed, ..s }, (dir, btn))
    }
}

impl Ship {
    pub closed spec fn view(&self) -> ShipView {
        ShipView {
            replay_mode: self.replay_mode,
            camera_mode: self.camera_mode,
            draw_front_mode: self.draw_front_mode,
            is_game_over: self.is_game_over,
            btn_pressed: self.btn_pressed,
            cnt: self.cnt as int,
            grade: self.grade,
            rank: self.rank as int,
            boss_app_rank: self.boss_app_rank as int,
            boss_app_num: self.boss_app_num as int,
            zone_end_rank: self.zone_end_rank as int,
            in_boss_mode: self.in_boss_mode,
            is_boss_mode_end: self.is_boss_mode_end,
            charging_shot: self.charging_shot,
            fire_cnt: self.fire_cnt as int,
            fire_shot_cnt: self.fire_shot_cnt as int,
            side_fire_cnt: self.side_fire_cnt as int,
            side_fire_shot_cnt: self.side_fire_shot_cnt as int,
        }
    }

    /// The frame counter never runs below the restart point.
    pub open spec fn wf(&self) -> bool {
        self.view().cnt >= -RESTART_CNT
    }

    pub fn new() -> (s: Ship)
        ensures
            s.wf(),
            s.view() == (ShipView {
                replay_mode: false,
                camera_mode: true,
                draw_front_mode: true,
                is_game_over: false,
                btn_pressed: false,
                cnt: 0,
                grade: 0,
                rank: 0,
                boss_app_rank: 0,
                boss_app_num: 0,
                zone_end_rank: 0,
                in_boss_mode: false,
                is_boss_mode_end: true,
                charging_shot: None,
                fire_cnt: 0,
                fire_shot_cnt: 0,
                side_fire_cnt: 0,
                side_fire_shot_cnt: 0,
            }),
    {
        Ship {
            replay_mode: false,
            camera_mode: true,
            draw_front_mode: true,
            is_game_over: false,
            btn_pressed: false,
            cnt: 0,
            grade: 0,
            rank: 0,
            boss_app_rank: 0,
            boss_app_num: 0,
            zone_end_rank: 0,
            in_boss_mode: false,
            is_boss_mode_end: true,
            charging_shot: None,
            fire_cnt: 0,
            fire_shot_cnt: 0,
            side_fire_cnt: 0,
            side_fire_shot_cnt: 0,
        }
    }

    /// Starts a game (or a replay) at grade `grade`: rank zero, not yet controllable,
    /// buttons held from the menu ignored until released, and the guns' shot counts
    /// reset. The shot pool is taken to be cleared, so no charge shot is kept.
    pub fn start(&mut self, replay_mode: bool, grade: u32)
        ensures
            final(self).wf(),
            final(self).view() == (ShipView {
                replay_mode,
                grade,
                cnt: -INVINCIBLE_CNT as int,
                rank: 0,
                is_game_over: false,
                btn_pressed: true,
                charging_shot: None,
                fire_shot_cnt: 0,
                side_fire_shot_cnt: SIDE_FIRE_OFF as int,
                ..old(self).view()
            }),
    {
        self.replay_mode = replay_mode;
        self.grade = grade;
        self.cnt = -INVINCIBLE_CNT;
        self.rank = 0;
        self.is_game_over = false;
        self.charging_shot = None;
        self.restart_guns();
        self.btn_pressed = true;
    }

    /// The guns after a restart: shot counts from zero, side shots held back.
    fn restart_guns(&mut self)
        ensures
            final(self).view() == (ShipView {
                fire_shot_cnt: 0,
                side_fire_shot_cnt: SIDE_FIRE_OFF as int,
                ..old(self).view()
            }),
    {
        self.fire_shot_cnt = 0;
        self.side_fire_shot_cnt = SIDE_FIRE_OFF;
    }

    /// Advances the frame counter and filters the pad's report: buttons still held
    /// from before the start are ignored until released, and nothing is obeyed after
    /// game over or while the ship is restarting.
    pub fn controls(&mut self, input: Option<PadState>) -> (r: PadState)
        requires
            old(self).wf(),
            old(self).view().cnt < i32::MAX,
        ensures
            final(self).wf(),
            (final(self).view(), (r.direction.value(), r.buttons.value())) == controls_spec(
                old(self).view(),
                match input {
                    Some(p) => Some((p.direction.value(), p.buttons.value())),
                    None => None,
                },
            ),
    {
        self.cnt = self.cnt + 1;
        let (mut dir, mut btn) = match input {
            Some(p) => (p.direction, p.buttons),
            None => {
                self.is_game_over = true;
                (PadDirection::none(), PadButtons::none())
            },
        };
        if self.btn_pressed {
            if btn.bits() != 0 {
                btn = PadButtons::none();
            } else {
                self.btn_pressed = false;
            }
        }
        if self.is_game_over {
            btn = PadButtons::none();
            dir = PadDirection::none();
            if self.cnt < -INVINCIBLE_CNT {
                self.cnt = -RESTART_CNT;
            }
        } else if self.cnt < -INVINCIBLE_CNT {
            btn = PadButtons::none();
            dir = PadDirection::none();
        }
        PadState { direction: dir, buttons: btn }
    }

    /// The ship is hit: unless it is still restarting, it restarts, and a shot being
    /// charged is given back to the pool. Returns whether it was destroyed.
    pub fn destroyed(&mut self, shots: &mut ShotPool) -> (r: bool)
        requires
            old(shots).pool().wf(),
            old(self).view().cnt > 0 ==> (old(self).view().charging_shot matches Some(cs)
                ==> old(shots).pool().is_valid(cs)),
        ensures
            r == (old(self).view().cnt > 0),
            final(self).view() == if r {
                ShipView {
                    cnt: -RESTART_CNT as int,
                    charging_shot: None,
                    fire_shot_cnt: 0,
                    side_fire_shot_cnt: SIDE_FIRE_OFF as int,
                    ..old(self).view()
                }
            } else {
                old(self).view()
            },
            final(shots).pool().wf(),
            match (r, old(self).view().charging_shot) {
                (true, Some(cs)) => {
                    &&& final(shots).pool().states() == old(shots).pool().states().update(
                        cs.slot(),
                        None,
                    )
                    &&& final(shots).pool().actors() == old(shots).pool().actors()
                    &&& final(shots).pool().len() == old(shots).pool().len()
                    &&& final(shots).pool().cursor() == old(shots).pool().cursor()
                    &&& final(shots).pool().current_generation()
                        == old(shots).pool().current_generation()
                    &&& final(shots).pool().num() + 1 == old(shots).pool().num()
                },
                _ => *final(shots) == *old(shots),
            },
            old(self).wf() ==> final(self).wf(),
    {
        if self.cnt <= 0 {
            return false;
        }
        self.restart_guns();
        if let Some(cs) = self.charging_shot {
            shots.release(cs);
            self.charging_shot = None;
        }
        self.cnt = -RESTART_CNT;
        true
    }

    /// One frame of the guns, with the buttons the ship obeys. Holding the charge
    /// button charges a shot, taken from the pool whatever the slot holds; letting it
    /// go lets the charge shot fly, or drops it when too short. Holding the fire
    /// button alone fires the main guns every `FIRE_INTERVAL` frames and the side guns
    /// when their counter runs out; each takes an idle shot if there is one, and every
    /// `STAR_SHELL_INTERVAL`-th shot of a gun is a star shell. `side_fire_limit` caps
    /// the side guns' wait: the faster the ship, the lower the caller sets it
    /// (`SIDE_FIRE_OFF` at ordinary speeds).
    #[verifier::rlimit(60)]
    pub fn fire(&mut self, btn: PadButtons, side_fire_limit: u32, shots: &mut ShotPool) -> (f:
        FireResult)
        requires
            old(shots).pool().wf(),
            old(shots).pool().current_generation() + 2 <= usize::MAX,
            old(self).view().fire_shot_cnt < u32::MAX,
            old(self).view().side_fire_shot_cnt < u32::MAX,
            btn.value() & 2 != 0 && old(self).view().charging_shot is None
                ==> old(shots).pool().len() > 0,
            btn.value() & 2 == 0 ==> (old(self).view().charging_shot matches Some(cs)
                ==> old(shots).pool().is_valid(cs)),
        ensures
            final(self).view() == fire_spec(old(self).view(), btn.value(), side_fire_limit as int, f),
            final(shots).pool().wf(),
            final(shots).pool().len() == old(shots).pool().len(),
            final(shots).pool().states() == states_after_fire(
                old(shots).pool().states(),
                old(shots).pool().cursor(),
                f,
            ),
            f.charge_started is Some <==> (btn.value() & 2 != 0
                && old(self).view().charging_shot is None),
            f.charge_started matches Some(r) ==> {
                &&& r.slot() == (old(shots).pool().cursor() + 1) % (old(shots).pool().len() as int)
                &&& r.stamp() == old(shots).pool().current_generation() + 1
                &&& final(shots).pool().actors()[r.slot()].view() == charging_shot_view()
            },
            f.charge_released == (if btn.value() & 2 != 0 {
                None
            } else {
                match old(self).view().charging_shot {
                    Some(cs) => Some(
                        (
                            cs,
                            old(shots).pool().actors()[cs.slot()].view().charge_cnt
                                < CHARGE_RELEASE_MIN,
                        ),
                    ),
                    None => None,
                }
            }),
            f.charge_released matches Some((cs, false)) ==> final(shots).pool().actors()[cs.slot()].view()
                == (ShotView { in_charge: false, ..old(shots).pool().actors()[cs.slot()].view() }),
            f.main_shot is Some <==> (btn.value() & 1 != 0 && btn.value() & 2 == 0
                && old(self).view().fire_cnt == 0 && first_free_after(
                states_after_release(old(shots).pool().states(), f.charge_released),
                old(shots).pool().cursor(),
                1,
            ) is Some),
            f.main_shot matches Some((r, n)) ==> {
                &&& n == old(self).view().fire_shot_cnt
                &&& first_free_after(
                    states_after_release(old(shots).pool().states(), f.charge_released),
                    old(shots).pool().cursor(),
                    1,
                ) == Some(r.slot())
                &&& r.stamp() == old(shots).pool().current_generation() + 1
                &&& final(shots).pool().actors()[r.slot()].view() == fired_shot(
                    n % STAR_SHELL_INTERVAL == 0,
                )
            },
            f.side_shot is Some <==> (btn.value() & 1 != 0 && btn.value() & 2 == 0
                && old(self).view().side_fire_cnt == 0 && first_free_after(
                after_main(
                    states_after_release(old(shots).pool().states(), f.charge_released),
                    old(shots).pool().cursor(),
                    f.main_shot,
                ).0,
                after_main(
                    states_after_release(old(shots).pool().states(), f.charge_released),
                    old(shots).pool().cursor(),
                    f.main_shot,
                ).1,
                1,
            ) is Some),
            f.side_shot matches Some((r, n)) ==> {
                &&& n == old(self).view().side_fire_shot_cnt
                &&& first_free_after(
                    after_main(
                        states_after_release(old(shots).pool().states(), f.charge_released),
                        old(shots).pool().cursor(),
                        f.main_shot,
                    ).0,
                    after_main(
                        states_after_release(old(shots).pool().states(), f.charge_released),
                        old(shots).pool().cursor(),
                        f.main_shot,
                    ).1,
                    1,
                ) == Some(r.slot())
                &&& r.stamp() == old(shots).pool().current_generation() + 1 + (if f.main_shot
                    is Some {
                    1int
                } else {
                    0int
                })
                &&& final(shots).pool().actors()[r.slot()].view() == fired_shot(
                    n % STAR_SHELL_INTERVAL == 0,
                )
            },
            forall|h: PoolActorRef|
                old(shots).pool().is_valid(h) && !(old(self).view().charging_shot matches Some(cs)
                    && cs.slot() == h.slot()) && !(f.charge_started matches Some(r) && r.slot()
                    == h.slot()) ==> final(shots).pool().is_valid(h) && #[trigger] final(
                    shots).pool().actors()[h.slot()] == old(shots).pool().actors()[h.slot()],
    {
        proof {
            shots.pool().lemma_wf_facts();
        }
        let charge = btn.intersects(PadButtons::b());
        let shooting = btn.intersects(PadButtons::a()) && !charge;
        let ghost s0 = *shots;
        let ghost ship0 = self.view();
        let mut charge_started: Option<PoolActorRef> = None;
        let mut charge_released: Option<(PoolActorRef, bool)> = None;
        let mut main_shot: Option<(PoolActorRef, u32)> = None;
        let mut side_shot: Option<(PoolActorRef, u32)> = None;
        if charge {
            charge_started = self.hold_charge(shots);
            proof {
                assert forall|h: PoolActorRef|
                    s0.pool().is_valid(h) && !(charge_started matches Some(r) && r.slot()
                        == h.slot()) implies shots.pool().is_valid(h) && #[trigger] shots.pool().actors()[h.slot()]
                    == s0.pool().actors()[h.slot()] by {}
            }
        } else {
            charge_released = self.let_go_charge(shots);
            let ghost s1 = *shots;
            if shooting {
                let shot_pair = self.shoot(shots);
                main_shot = shot_pair.0;
                side_shot = shot_pair.1;
            }
            proof {
                s1.pool().lemma_wf_facts();
                assert forall|h: PoolActorRef|
                    s0.pool().is_valid(h) && !(ship0.charging_shot matches Some(cs) && cs.slot()
                        == h.slot()) implies shots.pool().is_valid(h) && #[trigger] shots.pool().actors()[h.slot()]
                    == s0.pool().actors()[h.slot()] by {
                    assert(s1.pool().states()[h.slot()] == s0.pool().states()[h.slot()]);
                    assert(s1.pool().actors()[h.slot()] == s0.pool().actors()[h.slot()]);
                    assert(s1.pool().is_valid(h));
                    let mid = after_main(s1.pool().states(), s1.pool().cursor(), main_shot).0;
                    match main_shot {
                        Some((m, _)) => {
                            assert(m.slot() != h.slot());
                            assert(mid == s1.pool().states().update(m.slot(), Some(m.stamp())));
                            assert(mid[h.slot()] == s1.pool().states()[h.slot()]);
                        },
                        None => {
                            assert(mid == s1.pool().states());
                        },
                    }
                    match side_shot {
                        Some((sd, _)) => {
                            assert(sd.slot() != h.slot());
                        },
                        None => {},
                    }
                }
            }
        }
        if self.fire_cnt > 0 {
            self.fire_cnt = self.fire_cnt - 1;
        }
        if self.side_fire_cnt > side_fire_limit {
            self.side_fire_cnt = side_fire_limit;
        }
        if self.side_fire_cnt > 0 {
            self.side_fire_cnt = self.side_fire_cnt - 1;
        }
        FireResult { charge_started, charge_released, main_shot, side_shot }
    }

    /// Whether `fire` may be called with these buttons and shots: the shot counts and
    /// the pool's generations have room to grow, a charge can find a slot, and a charge
    /// shot about to be let go is still live.
    pub fn can_fire(&self, btn: PadButtons, shots: &ShotPool) -> (r: bool)
        requires
            shots.pool().wf(),
        ensures
            r == (shots.pool().current_generation() + 2 <= usize::MAX
                && self.view().fire_shot_cnt < u32::MAX
                && self.view().side_fire_shot_cnt < u32::MAX
                && (btn.value() & 2 != 0 && self.view().charging_shot is None
                ==> shots.pool().len() > 0)
                && (btn.value() & 2 == 0 ==> (self.view().charging_shot matches Some(cs)
                ==> shots.pool().is_valid(cs)))),
    {
        let charge = btn.intersects(PadButtons::b());
        if shots.generation_stamp() > usize::MAX - 2 {
            return false;
        }
        if self.fire_shot_cnt == u32::MAX || self.side_fire_shot_cnt == u32::MAX {
            return false;
        }
        match self.charging_shot {
            None => !charge || shots.size() > 0,
            Some(cs) => charge || shots.is_live(cs),
        }
    }

    /// The fire button is held alone: each gun whose counter has run out is set to wait
    /// again and fires an idle shot if there is one, the main guns first.
    fn shoot(&mut self, shots: &mut ShotPool) -> (fired: (
        Option<(PoolActorRef, u32)>,
        Option<(PoolActorRef, u32)>,
    ))
        requires
            old(shots).pool().wf(),
            old(shots).pool().current_generation() + 2 <= usize::MAX,
            old(self).view().fire_shot_cnt < u32::MAX,
            old(self).view().side_fire_shot_cnt < u32::MAX,
        ensures
            final(self).view() == (ShipView {
                fire_cnt: if old(self).view().fire_cnt == 0 {
                    FIRE_INTERVAL as int
                } else {
                    old(self).view().fire_cnt
                },
                fire_shot_cnt: old(self).view().fire_shot_cnt + if fired.0 is Some {
                    1int
                } else {
                    0int
                },
                side_fire_cnt: if old(self).view().side_fire_cnt == 0 {
                    SIDE_FIRE_OFF as int
                } else {
                    old(self).view().side_fire_cnt
                },
                side_fire_shot_cnt: old(self).view().side_fire_shot_cnt + if fired.1 is Some {
                    1int
                } else {
                    0int
                },
                ..old(self).view()
            }),
            final(shots).pool().wf(),
            final(shots).pool().len() == old(shots).pool().len(),
            fired.0 is Some <==> (old(self).view().fire_cnt == 0 && first_free_after(
                old(shots).pool().states(),
                old(shots).pool().cursor(),
                1,
            ) is Some),
            fired.0 matches Some((r, n)) ==> {
                &&& n == old(self).view().fire_shot_cnt
                &&& first_free_after(old(shots).pool().states(), old(shots).pool().cursor(), 1)
                    == Some(r.slot())
                &&& 0 <= r.slot() < old(shots).pool().len()
                &&& old(shots).pool().states()[r.slot()] is None
                &&& r.stamp() == old(shots).pool().current_generation() + 1
                &&& final(shots).pool().actors()[r.slot()].view() == fired_shot(
                    n % STAR_SHELL_INTERVAL == 0,
                )
            },
            fired.1 is Some <==> (old(self).view().side_fire_cnt == 0 && first_free_after(
                after_main(old(shots).pool().states(), old(shots).pool().cursor(), fired.0).0,
                after_main(old(shots).pool().states(), old(shots).pool().cursor(), fired.0).1,
                1,
            ) is Some),
            fired.1 matches Some((r, n)) ==> {
                &&& n == old(self).view().side_fire_shot_cnt
                &&& first_free_after(
                    after_main(old(shots).pool().states(), old(shots).pool().cursor(), fired.0).0,
                    after_main(old(shots).pool().states(), old(shots).pool().cursor(), fired.0).1,
                    1,
                ) == Some(r.slot())
                &&& 0 <= r.slot() < old(shots).pool().len()
                &&& after_main(
                    old(shots).pool().states(),
                    old(shots).pool().cursor(),
                    fired.0,
                ).0[r.slot()] is None
                &&& r.stamp() == old(shots).pool().current_generation() + 1 + (if fired.0 is Some {
                    1int
                } else {
                    0int
                })
                &&& final(shots).pool().actors()[r.slot()].view() == fired_shot(
                    n % STAR_SHELL_INTERVAL == 0,
                )
            },
            final(shots).pool().states() == match fired.1 {
                Some((r, _)) => after_main(
                    old(shots).pool().states(),
                    old(shots).pool().cursor(),
                    fired.0,
                ).0.update(r.slot(), Some(r.stamp())),
                None => after_main(old(shots).pool().states(), old(shots).pool().cursor(), fired.0).0,
            },
            forall|j: int|
                0 <= j < old(shots).pool().len() && !(fired.0 matches Some((r, _)) && r.slot() == j)
                    && !(fired.1 matches Some((r, _)) && r.slot() == j) ==> #[trigger] final(
                    shots).pool().actors()[j] == old(shots).pool().actors()[j],
    {
        let mut main_shot: Option<(PoolActorRef, u32)> = None;
        let mut side_shot: Option<(PoolActorRef, u32)> = None;
        let ghost s0 = *shots;
        if self.fire_cnt == 0 {
            self.fire_cnt = FIRE_INTERVAL;
            let n = self.fire_shot_cnt;
            match fire_plain_shot(shots, n % STAR_SHELL_INTERVAL == 0) {
                Some(r) => {
                    self.fire_shot_cnt = n + 1;
                    main_shot = Some((r, n));
                },
                None => {},
            }
        }
        let ghost s1 = *shots;
        assert(s1.pool().states() == after_main(s0.pool().states(), s0.pool().cursor(), main_shot).0);
        assert(s1.pool().cursor() == after_main(s0.pool().states(), s0.pool().cursor(), main_shot).1);
        if self.side_fire_cnt == 0 {
            self.side_fire_cnt = SIDE_FIRE_OFF;
            let n = self.side_fire_shot_cnt;
            match fire_plain_shot(shots, n % STAR_SHELL_INTERVAL == 0) {
                Some(r) => {
                    self.side_fire_shot_cnt = n + 1;
                    side_shot = Some((r, n));
                },
                None => {},
            }
        }
        proof {
            s0.pool().lemma_wf_facts();
            s1.pool().lemma_wf_facts();
            match (main_shot, side_shot) {
                (Some((m, _)), Some((sd, _))) => {
                    assert(s1.pool().states()[m.slot()] == Some(m.stamp()));
                    assert(m.slot() != sd.slot());
                    assert(shots.pool().actors()[m.slot()] == s1.pool().actors()[m.slot()]);
                },
                _ => {},
            }
        }
        (main_shot, side_shot)
    }

    /// The charge button is held: a charge shot starts charging unless one already is.
    fn hold_charge(&mut self, shots: &mut ShotPool) -> (started: Option<PoolActorRef>)
        requires
            old(shots).pool().wf(),
            old(shots).pool().current_generation() < usize::MAX,
            old(self).view().charging_shot is None ==> old(shots).pool().len() > 0,
        ensures
            started is Some <==> old(self).view().charging_shot is None,
            final(self).view() == (ShipView {
                charging_shot: if started is Some {
                    started
                } else {
                    old(self).view().charging_shot
                },
                ..old(self).view()
            }),
            final(shots).pool().wf(),
            final(shots).pool().len() == old(shots).pool().len(),
            match started {
                None => *final(shots) == *old(shots),
                Some(r) => {
                    &&& r.slot() == (old(shots).pool().cursor() + 1) % (old(
                        shots).pool().len() as int)
                    &&& 0 <= r.slot() < old(shots).pool().len()
                    &&& r.stamp() == old(shots).pool().current_generation() + 1
                    &&& final(shots).pool().states() == old(shots).pool().states().update(
                        r.slot(),
                        Some(r.stamp()),
                    )
                    &&& final(shots).pool().cursor() == r.slot()
                    &&& final(shots).pool().current_generation() == r.stamp()
                    &&& final(shots).pool().actors()[r.slot()].view() == charging_shot_view()
                    &&& forall|j: int|
                        0 <= j < old(shots).pool().len() && j != r.slot()
                            ==> #[trigger] final(shots).pool().actors()[j]
                            == old(shots).pool().actors()[j]
                },
            },
    {
        proof {
            shots.pool().lemma_wf_facts();
        }
        if self.charging_shot.is_none() {
            let r = shots.get_charging_instance();
            proof {
                shots.pool().lemma_wf_facts();
            }
            shots.index_mut(r).set_charge_star(true, false);
            self.charging_shot = Some(r);
            Some(r)
        } else {
            None
        }
    }

    /// The charge button is up: a charge shot under way flies, or is dropped and given
    /// back when too short.
    fn let_go_charge(&mut self, shots: &mut ShotPool) -> (released: Option<(PoolActorRef, bool)>)
        requires
            old(shots).pool().wf(),
            old(self).view().charging_shot matches Some(cs) ==> old(shots).pool().is_valid(cs),
        ensures
            final(self).view() == (ShipView { charging_shot: None, ..old(self).view() }),
            released == (match old(self).view().charging_shot {
                Some(cs) => Some(
                    (cs, old(shots).pool().actors()[cs.slot()].view().charge_cnt < CHARGE_RELEASE_MIN),
                ),
                None => None,
            }),
            final(shots).pool().wf(),
            final(shots).pool().len() == old(shots).pool().len(),
            final(shots).pool().cursor() == old(shots).pool().cursor(),
            final(shots).pool().current_generation() == old(shots).pool().current_generation(),
            final(shots).pool().states() == states_after_release(old(shots).pool().states(), released),
            released matches Some((cs, false)) ==> final(shots).pool().actors()[cs.slot()].view()
                == (ShotView { in_charge: false, ..old(shots).pool().actors()[cs.slot()].view() }),
            forall|j: int|
                0 <= j < old(shots).pool().len() && !(released matches Some((cs, _)) && cs.slot()
                    == j) ==> #[trigger] final(shots).pool().actors()[j] == old(
                    shots).pool().actors()[j],
    {
        proof {
            shots.pool().lemma_wf_facts();
        }
        match self.charging_shot {
            Some(cs) => {
                let dropped = shots.index_mut(cs).release();
                proof {
                    shots.pool().lemma_wf_facts();
                }
                if dropped {
                    shots.release(cs);
                }
                self.charging_shot = None;
                Some((cs, dropped))
            },
            None => None,
        }
    }

    /// Whether bullets can hit the ship.
    pub fn has_collision(&self) -> (r: bool)
        ensures
            r == (self.view().cnt > -INVINCIBLE_CNT),
    {
        !(self.cnt <= -INVINCIBLE_CNT)
    }

    /// Whether the ship is drawn this frame: it is hidden while restarting and blinks
    /// while invincible.
    pub fn is_drawn(&self) -> (r: bool)
        requires
            self.wf(),
        ensures
            r == !(self.view().cnt < -INVINCIBLE_CNT || (self.view().cnt < 0 && (-self.view().cnt)
                % 32 < 16)),
    {
        !(self.cnt < -INVINCIBLE_CNT || (self.cnt < 0 && (-self.cnt) % 32 < 16))
    }

    /// A kill raises the rank by one, up to the zone's end; reaching the boss rank
    /// starts boss mode, in which only boss kills count, and the last boss's fall
    /// leaves the zone. Returns whether the zone is left.
    pub fn rank_up(&mut self, is_boss: bool) -> (goto_next_zone: bool)
        requires
            old(self).view().rank + 2 <= u32::MAX,
            old(self).view().in_boss_mode && is_boss && !old(self).view().is_game_over
                ==> old(self).view().boss_app_num > 0,
        ensures
            (final(self).view(), goto_next_zone) == rank_up_spec(old(self).view(), is_boss),
            old(self).wf() ==> final(self).wf(),
    {
        if (self.in_boss_mode && !is_boss) || self.is_game_over {
            return false;
        }
        let mut goto_next_zone = false;
        if self.in_boss_mode {
            self.boss_app_num = self.boss_app_num - 1;
            if self.boss_app_num == 0 {
                self.rank = self.rank + 1;
                goto_next_zone = true;
                self.in_boss_mode = false;
                self.is_boss_mode_end = true;
                self.boss_app_rank = MAX_BOSS_APP_RANK;
            }
        }
        if self.rank < self.zone_end_rank {
            self.rank = self.rank + 1;
        }
        if self.rank >= self.boss_app_rank {
            self.in_boss_mode = true;
        }
        goto_next_zone
    }

    /// An enemy that has not yet left the play is tracked against the ship: an enemy
    /// ahead (`high_order`) that the ship reaches (`reached`, the enemy at or behind
    /// the ship) counts as a kill for the rank, and one behind that gets ahead again
    /// takes a rank back. Returns whether the enemy is now ahead, and whether the zone
    /// is left.
    pub fn track_enemy(&mut self, high_order: bool, reached: bool, is_boss: bool) -> (r: (
        bool,
        bool,
    ))
        requires
            high_order && reached ==> old(self).view().rank + 2 <= u32::MAX,
            high_order && reached && old(self).view().in_boss_mode && is_boss
                && !old(self).view().is_game_over ==> old(self).view().boss_app_num > 0,
            !high_order && !reached && !old(self).view().in_boss_mode ==> old(self).view().rank
                > 0,
        ensures
            high_order && reached ==> !r.0 && (final(self).view(), r.1) == rank_up_spec(
                old(self).view(),
                is_boss,
            ),
            !high_order && !reached ==> r == (true, false) && final(self).view() == if old(self).view().in_boss_mode {
                old(self).view()
            } else {
                ShipView { rank: old(self).view().rank - 1, ..old(self).view() }
            },
            high_order != reached ==> r == (high_order, false) && final(self).view() == old(self).view(),
            old(self).wf() ==> final(self).wf(),
    {
        if high_order {
            if reached {
                let goto_next_zone = self.rank_up(is_boss);
                return (false, goto_next_zone);
            }
        } else if !reached {
            self.rank_down();
            return (true, false);
        }
        (high_order, false)
    }

    /// An enemy got past: the rank drops by one, except in boss mode.
    pub fn rank_down(&mut self)
        requires
            !old(self).view().in_boss_mode ==> old(self).view().rank > 0,
        ensures
            final(self).view() == if old(self).view().in_boss_mode {
                old(self).view()
            } else {
                ShipView { rank: old(self).view().rank - 1, ..old(self).view() }
            },
            old(self).wf() ==> final(self).wf(),
    {
        if !self.in_boss_mode {
            self.rank = self.rank - 1;
        }
    }

    /// Ends the zone at once, as when every boss has been passed.
    pub fn goto_next_zone_forced(&mut self)
        ensures
            final(self).view() == (ShipView {
                boss_app_num: 0,
                in_boss_mode: false,
                is_boss_mode_end: true,
                boss_app_rank: MAX_BOSS_APP_RANK as int,
                ..old(self).view()
            }),
            old(self).wf() ==> final(self).wf(),
    {
        self.boss_app_num = 0;
        self.in_boss_mode = false;
        self.is_boss_mode_end = true;
        self.boss_app_rank = MAX_BOSS_APP_RANK;
    }

    /// The new zone has begun.
    pub fn start_next_zone(&mut self)
        ensures
            final(self).view() == (ShipView { is_boss_mode_end: false, ..old(self).view() }),
            old(self).wf() ==> final(self).wf(),
    {
        self.is_boss_mode_end = false;
    }

    /// Sets up a zone: the rank at which `num` bosses appear, and the zone's end rank.
    pub fn set_boss_app(&mut self, rank: u32, num: u32, zone_end_rank: u32)
        ensures
            final(self).view() == (ShipView {
                boss_app_rank: rank as int,
                boss_app_num: num as int,
                zone_end_rank: zone_end_rank as int,
                in_boss_mode: false,
                ..old(self).view()
            }),
            old(self).wf() ==> final(self).wf(),
    {
        self.boss_app_rank = rank;
        self.boss_app_num = num;
        self.zone_end_rank = zone_end_rank;
        self.in_boss_mode = false;
    }

    /// The ranks left before the zone's end, as the screen shows them.
    pub fn ranks_to_zone_end(&self) -> (r: u32)
        requires
            self.view().rank <= self.view().zone_end_rank,
        ensures
            r == self.view().zone_end_rank - self.view().rank,
    {
        self.zone_end_rank - self.rank
    }

    /// The frame counter: below zero while restarting or invincible.
    pub fn cnt(&self) -> (r: i32)
        ensures
            r == self.view().cnt,
    {
        self.cnt
    }

    pub fn rank(&self) -> (r: u32)
        ensures
            r == self.view().rank,
    {
        self.rank
    }

    pub fn grade(&self) -> (r: u32)
        ensures
            r == self.view().grade,
    {
        self.grade
    }

    pub fn is_replay_mode(&self) -> (r: bool)
        ensures
            r == self.view().replay_mode,
    {
        self.replay_mode
    }

    pub fn camera_mode(&mut self, camera_mode: bool)
        ensures
            final(self).view() == (ShipView { camera_mode, ..old(self).view() }),
            old(self).wf() ==> final(self).wf(),
    {
        self.camera_mode = camera_mode;
    }

    pub fn is_camera_mode(&self) -> (r: bool)
        ensures
            r == self.view().camera_mode,
    {
        self.camera_mode
    }

    pub fn is_draw_front_mode(&self) -> (r: bool)
        ensures
            r == self.view().draw_front_mode,
    {
        self.draw_front_mode
    }

    pub fn draw_front_mode(&mut self, draw_front_mode: bool)
        ensures
            final(self).view() == (ShipView { draw_front_mode, ..old(self).view() }),
            old(self).wf() ==> final(self).wf(),
    {
        self.draw_front_mode = draw_front_mode;
    }

    pub fn is_game_over(&self) -> (r: bool)
        ensures
            r == self.view().is_game_over,
    {
        self.is_game_over
    }

    pub fn game_over(&mut self)
        ensures
            final(self).view() == (ShipView { is_game_over: true, ..old(self).view() }),
            old(self).wf() ==> final(self).wf(),
    {
        self.is_game_over = true;
    }

    pub fn in_boss_mode(&self) -> (r: bool)
        ensures
            r == self.view().in_boss_mode,
    {
        self.in_boss_mode
    }

    pub fn is_boss_mode_end(&self) -> (r: bool)
        ensures
            r == self.view().is_boss_mode_end,
    {
        self.is_boss_mode_end
    }
}

/// While bosses are out, only boss kills count; after game over, no kill counts.
pub proof fn law_rank_frozen_outside_play(s: ShipView, is_boss: bool)
    requires
        (s.in_boss_mode && !is_boss) || s.is_game_over,
    ensures
        rank_up_spec(s, is_boss) == (s, false),
{
}

/// A zone is left by a kill exactly when it is the last boss's.
pub proof fn law_zone_left_by_last_boss(s: ShipView, is_boss: bool)
    ensures
        rank_up_spec(s, is_boss).1 <==> (s.in_boss_mode && is_boss && !s.is_game_over
            && s.boss_app_num <= 1),
        rank_up_spec(s, is_boss).1 ==> !rank_up_spec(s, is_boss).0.in_boss_mode
            || rank_up_spec(s, is_boss).0.rank >= MAX_BOSS_APP_RANK,
{
}

/// The main guns fire at most once every `FIRE_INTERVAL` frames: a frame in which
/// they may fire leaves their counter at `FIRE_INTERVAL - 1`, so they cannot fire in
/// the next frame, and it runs out again in the frame after that.
pub proof fn law_main_gun_interval(
    s: ShipView,
    btn1: u8,
    btn2: u8,
    limit1: int,
    limit2: int,
    f1: FireResult,
    f2: FireResult,
)
    requires
        btn1 & 1 != 0,
        btn1 & 2 == 0,
        s.fire_cnt == 0,
    ensures
        fire_spec(s, btn1, limit1, f1).fire_cnt == FIRE_INTERVAL - 1,
        fire_spec(fire_spec(s, btn1, limit1, f1), btn2, limit2, f2).fire_cnt == 0,
{
}

/// After game over the ship obeys no control, whatever the pad reports.
pub proof fn law_no_control_after_game_over(s: ShipView, input: Option<(u8, u8)>)
    requires
        s.is_game_over || input is None,
    ensures
        controls_spec(s, input).1 == (0u8, 0u8),
        controls_spec(s, input).0.is_game_over,
{
}

} // verus!
