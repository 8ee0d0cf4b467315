use vstd::prelude::*;
use crate::random::{seeded_words, usize_draw, Rand};

verus! {

/// The track that a new game plays, from a draw `draw` below the track count `n`:
/// the drawn track, moved on by one (wrapping) when it is the one that played last.
pub open spec fn pick_bgm_spec(draw: int, prev: int, n: int) -> int {
    if draw == prev {
        if draw + 1 >= n {
            0
        } else {
            draw + 1
        }
    } else {
        draw
    }
}

/// The track after `prev` in the direction `mv`, wrapping around the `n` tracks.
pub open spec fn next_bgm_spec(prev: int, mv: int, n: int) -> int {
    if prev + mv < 0 {
        n - 1
    } else if prev + mv >= n {
        0
    } else {
        prev + mv
    }
}

/// The choice of background music and whether sound effects play. The audio device
/// itself is driven by the caller, which plays the tracks this chooses.
pub struct SoundManager {
    no_sound: bool,
    se_disabled: bool,
    bgm_num: usize,
    prev_bgm_idx: usize,
    next_idx_mv: isize,
    rand: Rand,
}

impl SoundManager {
    pub closed spec fn silent(&self) -> bool {
        self.no_sound
    }

    pub closed spec fn se_off(&self) -> bool {
        self.se_disabled
    }

    pub closed spec fn track_count(&self) -> int {
        self.bgm_num as int
    }

    pub closed spec fn prev_track(&self) -> int {
        self.prev_bgm_idx as int
    }

    pub closed spec fn direction(&self) -> int {
        self.next_idx_mv as int
    }

    /// The generator the choices are drawn from.
    pub closed spec fn generator(&self) -> Rand {
        self.rand
    }

    /// A track was played last, or none yet (`prev_track == track_count`), and the
    /// direction of the next track is one step either way.
    pub open spec fn wf(&self) -> bool {
        &&& 0 <= self.prev_track() <= self.track_count()
        &&& self.direction() == 1 || self.direction() == -1 || self.direction() == 0
    }

    /// A manager with no tracks yet, drawing its choices from a generator seeded with
    /// `seed`.
    pub fn new(no_sound: bool, seed: u64) -> (m: SoundManager)
        ensures
            m.generator().state() == seeded_words(seed),
            m.wf(),
            m.silent() == no_sound,
            !m.se_off(),
            m.track_count() == 0,
            m.prev_track() == 0,
            m.direction() == 0,
    {
        SoundManager {
            no_sound,
            se_disabled: false,
            bgm_num: 0,
            prev_bgm_idx: 0,
            next_idx_mv: 0,
            rand: Rand::new(seed),
        }
    }

    /// The `bgm_num` tracks are loaded; none has played yet.
    pub fn init(&mut self, bgm_num: usize)
        requires
            old(self).wf(),
        ensures
            final(self).wf(),
            final(self).track_count() == bgm_num,
            final(self).prev_track() == bgm_num,
            final(self).direction() == old(self).direction(),
            final(self).silent() == old(self).silent(),
            final(self).se_off() == old(self).se_off(),
    {
        self.bgm_num = bgm_num;
        self.prev_bgm_idx = bgm_num;
    }

    /// Reseeds the generator the choices are drawn from.
    pub fn set_rand_seed(&mut self, seed: u64)
        ensures
            final(self).generator().state() == seeded_words(seed),
            final(self).silent() == old(self).silent(),
            final(self).se_off() == old(self).se_off(),
            final(self).track_count() == old(self).track_count(),
            final(self).prev_track() == old(self).prev_track(),
            final(self).direction() == old(self).direction(),
    {
        self.rand.set_seed(seed)
    }

    /// Maps the two draws of a new game onto a track and a direction.
    pub fn pick_bgm(draw: usize, dir_draw: usize, prev: usize, n: usize) -> (r: (usize, isize))
        requires
            draw < n,
            dir_draw < 2,
        ensures
            r.0 == pick_bgm_spec(draw as int, prev as int, n as int),
            r.1 == dir_draw * 2 - 1,
    {
        let mut idx = draw;
        if idx == prev {
            idx = idx + 1;
            if idx >= n {
                idx = 0;
            }
        }
        (idx, dir_draw as isize * 2 - 1)
    }

    /// Chooses the track for a new game: a random one, but not the one that played
    /// last, and a random direction for the tracks that follow. `None` when sound is
    /// off.
    pub fn play_bgm(&mut self) -> (r: Option<usize>)
        requires
            old(self).wf(),
            !old(self).silent() ==> old(self).track_count() > 0,
        ensures
            final(self).wf(),
            final(self).silent() == old(self).silent(),
            final(self).se_off() == old(self).se_off(),
            final(self).track_count() == old(self).track_count(),
            old(self).silent() ==> r is None && final(self).prev_track() == old(self).prev_track()
                && final(self).direction() == old(self).direction(),
            !old(self).silent() ==> (r matches Some(i) && i < old(self).track_count()
                && final(self).prev_track() == i && (final(self).direction() == 1
                || final(self).direction() == -1) && (old(self).track_count() >= 2 ==> i
                != old(self).prev_track())),
            old(self).silent() ==> final(self).generator() == old(self).generator(),
            !old(self).silent() ==> {
                let (d, s1) = usize_draw(old(self).generator().state(), old(self).track_count() as usize);
                let (e, s2) = usize_draw(s1, 2);
                &&& r == Some(pick_bgm_spec(d as int, old(self).prev_track(), old(self).track_count()) as usize)
                &&& final(self).direction() == e * 2 - 1
                &&& final(self).generator().state() == s2
            },
    {
        if self.no_sound {
            return None;
        }
        let n = self.bgm_num;
        let draw = self.rand.gen_usize(n);
        let dir_draw = self.rand.gen_usize(2);
        let (idx, mv) = SoundManager::pick_bgm(draw, dir_draw, self.prev_bgm_idx, n);
        self.next_idx_mv = mv;
        self.prev_bgm_idx = idx;
        Some(idx)
    }

    /// Chooses the next track: the neighbour of the last one in the game's direction,
    /// wrapping around. `None` when sound is off.
    pub fn next_bgm(&mut self) -> (r: Option<usize>)
        requires
            old(self).wf(),
            !old(self).silent() ==> old(self).track_count() > 0,
        ensures
            final(self).wf(),
            final(self).silent() == old(self).silent(),
            final(self).se_off() == old(self).se_off(),
            final(self).track_count() == old(self).track_count(),
            final(self).direction() == old(self).direction(),
            old(self).silent() ==> r is None && final(self).prev_track() == old(self).prev_track(),
            !old(self).silent() ==> r == Some(
                next_bgm_spec(
                    old(self).prev_track(),
                    old(self).direction(),
                    old(self).track_count(),
                ) as usize,
            ) && final(self).prev_track() == next_bgm_spec(
                old(self).prev_track(),
                old(self).direction(),
                old(self).track_count(),
            ),
    {
        if self.no_sound {
            return None;
        }
        let n = self.bgm_num;
        let idx: usize = if self.next_idx_mv < 0 {
            if self.prev_bgm_idx == 0 {
                n - 1
            } else {
                self.prev_bgm_idx - 1
            }
        } else if self.next_idx_mv > 0 {
            if self.prev_bgm_idx >= n - 1 {
                0
            } else {
                self.prev_bgm_idx + 1
            }
        } else {
            if self.prev_bgm_idx >= n {
                0
            } else {
                self.prev_bgm_idx
            }
        };
        self.prev_bgm_idx = idx;
        Some(idx)
    }

    pub fn enable_se(&mut self)
        ensures
            !final(self).se_off(),
            final(self).silent() == old(self).silent(),
            final(self).track_count() == old(self).track_count(),
            final(self).prev_track() == old(self).prev_track(),
            final(self).direction() == old(self).direction(),
    {
        self.se_disabled = false;
    }

    pub fn disable_se(&mut self)
        ensures
            final(self).se_off(),
            final(self).silent() == old(self).silent(),
            final(self).track_count() == old(self).track_count(),
            final(self).prev_track() == old(self).prev_track(),
            final(self).direction() == old(self).direction(),
    {
        self.se_disabled = true;
    }

    /// Whether a sound effect is to be played now.
    pub fn se_enabled(&self) -> (r: bool)
        ensures
            r == (!self.silent() && !self.se_off()),
    {
        !self.no_sound && !self.se_disabled
    }

    /// Whether music is played at all.
    pub fn is_silent(&self) -> (r: bool)
        ensures
            r == self.silent(),
    {
        self.no_sound
    }
}

/// With at least two tracks, a new game never repeats the track that played last.
pub proof fn law_new_game_changes_track(draw: int, prev: int, n: int)
    requires
        0 <= draw < n,
        0 <= prev <= n,
        n >= 2,
    ensures
        0 <= pick_bgm_spec(draw, prev, n) < n,
        pick_bgm_spec(draw, prev, n) != prev,
{
}

/// Stepping through the tracks stays among them.
pub proof fn law_next_track_in_range(prev: int, mv: int, n: int)
    requires
        0 <= prev <= n,
        n > 0,
        mv == 1 || mv == -1 || mv == 0,
    ensures
        0 <= next_bgm_spec(prev, mv, n) < n,
{
}

} // verus!
