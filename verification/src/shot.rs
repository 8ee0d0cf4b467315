use vstd::prelude::*;
use crate::actor::{first_free_after, Pool, PoolActorRef};

verus! {

/// Frames of charging for a full charge.
pub const MAX_CHARGE: u32 = 90;
/// Frames of charging below which a released charge is dropped: a quarter of a full
/// charge, rounded up.
pub const CHARGE_RELEASE_MIN: u32 = 23;
/// The highest score multiplier of a charge shot.
pub const MAX_MULTIPLIER: u32 = 100;
/// Frames between two repeats of the charging sound.
pub const CHARGE_SE_INTERVAL: u32 = 52;

/// The counters of a shot: its charge, its score multiplier and its damage.
pub struct Shot {
    charge_cnt: u32,
    charge_se_cnt: u32,
    cnt: u32,
    charge_shot: bool,
    in_charge: bool,
    star_shell: bool,
    multiplier: u32,
    damage: i32,
}

/// A shot's counters, as plain values.
pub struct ShotView {
    pub charge_cnt: int,
    pub charge_se_cnt: int,
    pub cnt: int,
    pub charge_shot: bool,
    pub in_charge: bool,
    pub star_shell: bool,
    pub multiplier: int,
    pub damage: int,
}

impl Shot {
    pub closed spec fn view(&self) -> ShotView {
        ShotView {
            charge_cnt: self.charge_cnt as int,
            charge_se_cnt: self.charge_se_cnt as int,
            cnt: self.cnt as int,
            charge_shot: self.charge_shot,
            in_charge: self.in_charge,
            star_shell: self.star_shell,
            multiplier: self.multiplier as int,
            damage: self.damage as int,
        }
    }

    /// The charge never passes the full charge, and the multiplier lies between one
    /// and its maximum.
    pub open spec fn wf(&self) -> bool {
        &&& 0 <= self.view().charge_cnt <= MAX_CHARGE
        &&& 1 <= self.view().multiplier <= MAX_MULTIPLIER
    }

    /// An ordinary shot (`charge_shot` false) or a charge shot, idle.
    pub fn new(charge_shot: bool) -> (s: Shot)
        ensures
            s.wf(),
            s.view() == (ShotView {
                charge_cnt: 0,
                charge_se_cnt: 0,
                cnt: 0,
                charge_shot,
                in_charge: false,
                star_shell: false,
                multiplier: 1,
                damage: 0,
            }),
    {
        Shot {
            charge_cnt: 0,
            charge_se_cnt: 0,
            cnt: 0,
            charge_shot,
            in_charge: false,
            star_shell: false,
            multiplier: 1,
            damage: 0,
        }
    }

    /// Fires the shot: a charge starts charging and deals heavy damage once released;
    /// a plain shot deals one point and may be a star shell. Returns whether the
    /// firing sound plays (for a plain shot).
    pub fn set_charge_star(&mut self, charge: bool, star: bool) -> (plays_sound: bool)
        ensures
            final(self).wf(),
            plays_sound == !charge,
            final(self).view() == (ShotView {
                cnt: 0,
                multiplier: 1,
                in_charge: charge,
                charge_cnt: 0,
                charge_se_cnt: 0,
                damage: if charge {
                    100
                } else {
                    1
                },
                star_shell: !charge && star,
                ..old(self).view()
            }),
    {
        self.cnt = 0;
        self.multiplier = 1;
        self.in_charge = charge;
        self.charge_cnt = 0;
        self.charge_se_cnt = 0;
        if charge {
            self.damage = 100;
            self.star_shell = false;
        } else {
            self.damage = 1;
            self.star_shell = star;
        }
        !charge
    }

    /// The charge button is released: a charge too short is dropped (returns true);
    /// otherwise the shot flies.
    pub fn release(&mut self) -> (dropped: bool)
        ensures
            dropped == (old(self).view().charge_cnt < CHARGE_RELEASE_MIN),
            final(self).view() == if dropped {
                old(self).view()
            } else {
                ShotView { in_charge: false, ..old(self).view() }
            },
            old(self).wf() ==> final(self).wf(),
    {
        if self.charge_cnt < CHARGE_RELEASE_MIN {
            return true;
        }
        self.in_charge = false;
        false
    }

    /// One frame of charging: the charge grows up to the full charge. Returns whether
    /// the charging sound plays this frame.
    pub fn charge_step(&mut self) -> (plays_sound: bool)
        requires
            old(self).wf(),
            old(self).view().charge_se_cnt < u32::MAX,
        ensures
            final(self).wf(),
            plays_sound == (old(self).view().charge_se_cnt % (CHARGE_SE_INTERVAL as int) == 0),
            final(self).view() == (ShotView {
                charge_cnt: if old(self).view().charge_cnt < MAX_CHARGE {
                    old(self).view().charge_cnt + 1
                } else {
                    old(self).view().charge_cnt
                },
                charge_se_cnt: old(self).view().charge_se_cnt + 1,
                ..old(self).view()
            }),
    {
        if self.charge_cnt < MAX_CHARGE {
            self.charge_cnt = self.charge_cnt + 1;
        }
        let plays = self.charge_se_cnt % CHARGE_SE_INTERVAL == 0;
        self.charge_se_cnt = self.charge_se_cnt + 1;
        plays
    }

    /// The shot hit something worth `sc`: the score credited is `sc` times the
    /// multiplier; a charge shot flies on with a higher multiplier, a plain shot is
    /// spent. Returns the score credited, whether the shot is spent, and the multiplier
    /// to show beside the hit (`X` and the number), which is shown once it passes 1.
    pub fn add_score(&mut self, sc: u32) -> (r: (u32, bool, Option<u32>))
        requires
            old(self).wf(),
            sc * old(self).view().multiplier <= u32::MAX,
        ensures
            final(self).wf(),
            r.0 == sc * old(self).view().multiplier,
            r.1 == !old(self).view().charge_shot,
            r.2 == if old(self).view().multiplier > 1 {
                Some(old(self).view().multiplier as u32)
            } else {
                None
            },
            final(self).view().multiplier == if old(self).view().charge_shot {
                multiplier_after_hits(old(self).view().multiplier, 1)
            } else {
                old(self).view().multiplier
            },
            final(self).view() == if old(self).view().charge_shot && old(self).view().multiplier
                < MAX_MULTIPLIER {
                ShotView { multiplier: old(self).view().multiplier + 1, ..old(self).view() }
            } else {
                old(self).view()
            },
    {
        let credited = sc * self.multiplier;
        let shown = if self.multiplier > 1 {
            Some(self.multiplier)
        } else {
            None
        };
        assert(multiplier_after_hits(self.multiplier as int, 0) == self.multiplier);
        if self.charge_shot {
            if self.multiplier < MAX_MULTIPLIER {
                self.multiplier = self.multiplier + 1;
            }
            (credited, false, shown)
        } else {
            (credited, true, shown)
        }
    }

    /// The sparks the shot leaves this frame, if any: how many and for how many
    /// frames. Star shells and well charged shots leave them.
    pub fn sparks(&self) -> (r: Option<(u32, i32)>)
        requires
            self.wf(),
        ensures
            r == if self.view().star_shell || self.view().charge_cnt >= CHARGE_RELEASE_MIN {
                Some(
                    (
                        if self.view().charge_shot {
                            3u32
                        } else {
                            1u32
                        },
                        (self.view().charge_cnt * 32 / (MAX_CHARGE as int) + 4) as i32,
                    ),
                )
            } else {
                None
            },
    {
        if self.star_shell || self.charge_cnt >= CHARGE_RELEASE_MIN {
            let n: u32 = if self.charge_shot {
                3
            } else {
                1
            };
            let life = (self.charge_cnt * 32 / MAX_CHARGE + 4) as i32;
            Some((n, life))
        } else {
            None
        }
    }

    /// Counts a frame of the shot's flight.
    pub fn count_frame(&mut self)
        requires
            old(self).view().cnt < u32::MAX,
        ensures
            final(self).view() == (ShotView { cnt: old(self).view().cnt + 1, ..old(self).view() }),
            old(self).wf() ==> final(self).wf(),
    {
        self.cnt = self.cnt + 1;
    }

    pub fn damage(&self) -> (r: i32)
        ensures
            r == self.view().damage,
    {
        self.damage
    }

    pub fn multiplier(&self) -> (r: u32)
        ensures
            r == self.view().multiplier,
    {
        self.multiplier
    }

    pub fn charge_cnt(&self) -> (r: u32)
        ensures
            r == self.view().charge_cnt,
    {
        self.charge_cnt
    }

    pub fn is_charge_shot(&self) -> (r: bool)
        ensures
            r == self.view().charge_shot,
    {
        self.charge_shot
    }

    pub fn is_in_charge(&self) -> (r: bool)
        ensures
            r == self.view().in_charge,
    {
        self.in_charge
    }

    pub fn cnt(&self) -> (r: u32)
        ensures
            r == self.view().cnt,
    {
        self.cnt
    }
}

/// The counters of a shot that has not been fired.
pub open spec fn idle_shot(charge_shot: bool) -> ShotView {
    ShotView {
        charge_cnt: 0,
        charge_se_cnt: 0,
        cnt: 0,
        charge_shot,
        in_charge: false,
        star_shell: false,
        multiplier: 1,
        damage: 0,
    }
}

impl Default for Shot {
    /// An idle plain shot.
    fn default() -> (s: Shot)
        ensures
            s.wf(),
            s.view() == idle_shot(false),
    {
        Shot::new(false)
    }
}

/// The ship's shots: plain shots taken from the idle slots in turn, and charge shots
/// that take the next slot whatever it holds.
pub struct ShotPool {
    pool: Pool<Shot>,
}

impl ShotPool {
    pub closed spec fn pool(&self) -> Pool<Shot> {
        self.pool
    }

    /// A pool of `n` idle plain shots.
    pub fn new(n: usize) -> (p: ShotPool)
        ensures
            p.pool().wf(),
            p.pool().len() == n,
            forall|i: int| 0 <= i < n ==> #[trigger] p.pool().states()[i] is None,
            forall|i: int| 0 <= i < n ==> #[trigger] p.pool().actors()[i].view() == idle_shot(false),
            p.pool().cursor() == 0,
            p.pool().current_generation() == 0,
            p.pool().num() == 0,
    {
        let pool: Pool<Shot> = Pool::new(n);
        ShotPool { pool }
    }

    /// Takes an idle slot for a plain shot, in round-robin order, and hands the shot
    /// to the caller to fire. `None`, with the pool unchanged, when every slot is live.
    pub fn get_instance_and(&mut self) -> (res: Option<(&mut Shot, PoolActorRef)>)
        requires
            old(self).pool().wf(),
            old(self).pool().current_generation() < usize::MAX,
        ensures
            final(self).pool().wf(),
            final(self).pool().len() == old(self).pool().len(),
            res is None <==> old(self).pool().num() == old(self).pool().len(),
            res is None <==> first_free_after(old(self).pool().states(), old(self).pool().cursor(), 1)
                is None,
            match res {
                None => *final(self) == *old(self),
                Some((a, r)) => {
                    &&& first_free_after(old(self).pool().states(), old(self).pool().cursor(), 1)
                        == Some(r.slot())
                    &&& 0 <= r.slot() < old(self).pool().len()
                    &&& old(self).pool().states()[r.slot()] is None
                    &&& r.stamp() == old(self).pool().current_generation() + 1
                    &&& a.view() == (ShotView {
                        charge_shot: false,
                        ..old(self).pool().actors()[r.slot()].view()
                    })
                    &&& final(self).pool().actors() == old(self).pool().actors().update(
                        r.slot(),
                        *final(a),
                    )
                    &&& final(self).pool().states() == old(self).pool().states().update(
                        r.slot(),
                        Some(r.stamp()),
                    )
                    &&& final(self).pool().cursor() == r.slot()
                    &&& final(self).pool().current_generation() == r.stamp()
                    &&& final(self).pool().num() == old(self).pool().num() + 1
                },
            },
    {
        match self.pool.get_instance() {
            Some((shot, r)) => {
                shot.charge_shot = false;
                Some((shot, r))
            },
            None => None,
        }
    }

    /// Takes the slot after the cursor, live or not, for a charge shot.
    pub fn get_charging_instance(&mut self) -> (r: PoolActorRef)
        requires
            old(self).pool().wf(),
            old(self).pool().len() > 0,
            old(self).pool().current_generation() < usize::MAX,
        ensures
            final(self).pool().wf(),
            final(self).pool().len() == old(self).pool().len(),
            r.slot() == (old(self).pool().cursor() + 1) % (old(self).pool().len() as int),
            r.stamp() == old(self).pool().current_generation() + 1,
            final(self).pool().actors()[r.slot()].view() == (ShotView {
                charge_shot: true,
                ..old(self).pool().actors()[r.slot()].view()
            }),
            forall|j: int|
                0 <= j < old(self).pool().len() && j != r.slot() ==> #[trigger] final(self).pool().actors()[j]
                    == old(self).pool().actors()[j],
            final(self).pool().states() == old(self).pool().states().update(
                r.slot(),
                Some(r.stamp()),
            ),
            final(self).pool().cursor() == r.slot(),
            final(self).pool().current_generation() == r.stamp(),
            final(self).pool().num() == old(self).pool().num() + (if old(self).pool().states()[r.slot()]
                is None {
                1int
            } else {
                0int
            }),
            final(self).pool().is_valid(r),
    {
        proof {
            self.pool.lemma_wf_facts();
        }
        let (shot, r) = self.pool.get_instance_forced();
        shot.charge_shot = true;
        r
    }

    /// Whether `shot_ref` names a live shot.
    pub fn is_live(&self, shot_ref: PoolActorRef) -> (r: bool)
        requires
            self.pool().wf(),
        ensures
            r == self.pool().is_valid(shot_ref),
    {
        self.pool.is_live(shot_ref)
    }

    /// The last generation handed out.
    pub fn generation_stamp(&self) -> (r: usize)
        ensures
            r == self.pool().current_generation(),
    {
        self.pool.generation_stamp()
    }

    /// The number of slots.
    pub fn size(&self) -> (r: usize)
        requires
            self.pool().wf(),
        ensures
            r == self.pool().len(),
    {
        self.pool.size()
    }

    /// Gives a live shot's slot back.
    pub fn release(&mut self, shot_ref: PoolActorRef)
        requires
            old(self).pool().wf(),
            old(self).pool().is_valid(shot_ref),
        ensures
            final(self).pool().wf(),
            final(self).pool().len() == old(self).pool().len(),
            final(self).pool().actors() == old(self).pool().actors(),
            final(self).pool().states() == old(self).pool().states().update(shot_ref.slot(), None),
            final(self).pool().cursor() == old(self).pool().cursor(),
            final(self).pool().current_generation() == old(self).pool().current_generation(),
            final(self).pool().num() + 1 == old(self).pool().num(),
    {
        self.pool.release(shot_ref);
    }

    /// Makes every shot idle.
    pub fn clear(&mut self)
        requires
            old(self).pool().wf(),
        ensures
            final(self).pool().wf(),
            final(self).pool().len() == old(self).pool().len(),
            final(self).pool().actors() == old(self).pool().actors(),
            forall|i: int|
                0 <= i < final(self).pool().len() ==> #[trigger] final(self).pool().states()[i] is None,
            final(self).pool().cursor() == 0,
            final(self).pool().current_generation() == old(self).pool().current_generation(),
            final(self).pool().num() == 0,
    {
        self.pool.clear();
    }

    /// The shot that a live handle names.
    pub fn index(&self, shot_ref: PoolActorRef) -> (r: &Shot)
        requires
            self.pool().wf(),
            self.pool().is_valid(shot_ref),
        ensures
            *r == self.pool().actors()[shot_ref.slot()],
    {
        self.pool.index(shot_ref)
    }

    /// Mutable access to the shot that a live handle names.
    pub fn index_mut(&mut self, shot_ref: PoolActorRef) -> (r: &mut Shot)
        requires
            old(self).pool().wf(),
            old(self).pool().is_valid(shot_ref),
        ensures
            final(self).pool().wf(),
            *r == old(self).pool().actors()[shot_ref.slot()],
            final(self).pool().actors() == old(self).pool().actors().update(
                shot_ref.slot(),
                *final(r),
            ),
            final(self).pool().states() == old(self).pool().states(),
            final(self).pool().len() == old(self).pool().len(),
            final(self).pool().cursor() == old(self).pool().cursor(),
            final(self).pool().current_generation() == old(self).pool().current_generation(),
            final(self).pool().num() == old(self).pool().num(),
    {
        self.pool.index_mut(shot_ref)
    }
}

/// A charge shot's multiplier after `k` more hits from multiplier `m`.
pub open spec fn multiplier_after_hits(m: int, k: nat) -> int
    decreases k,
{
    if k == 0 {
        m
    } else {
        let n = multiplier_after_hits(m, (k - 1) as nat);
        if n < MAX_MULTIPLIER {
            n + 1
        } else {
            n
        }
    }
}

/// A fresh charge shot's multiplier grows by one per hit until it reaches its
/// maximum: after `k` hits it is `min(1 + k, MAX_MULTIPLIER)`.
pub proof fn law_multiplier_after_hits(k: nat)
    ensures
        multiplier_after_hits(1, k) == if 1 + k < MAX_MULTIPLIER {
            1 + k as int
        } else {
            MAX_MULTIPLIER as int
        },
    decreases k,
{
    if k > 0 {
        law_multiplier_after_hits((k - 1) as nat);
    }
}

} // verus!
