use vstd::prelude::*;
use crate::random::{seeded_words, usize_draw, Rand};

verus! {

/// The shape that a barrage's bullets are drawn with.
#[derive(PartialEq, Eq, Clone, Copy, Debug, Structural)]
pub enum BulletShapeType {
    Triangle,
    Square,
    Bar,
}

/// The settings of a barrage that decide how its top bullet is fired: its waits, its
/// range, and whether it may be mirrored.
pub struct Barrage {
    rand: Rand,
    long_range: bool,
    prev_wait: u32,
    post_wait: u32,
    no_x_reverse: bool,
}

impl Barrage {
    pub closed spec fn waits(&self) -> (u32, u32) {
        (self.prev_wait, self.post_wait)
    }

    pub closed spec fn is_long_range(&self) -> bool {
        self.long_range
    }

    pub closed spec fn never_mirrored(&self) -> bool {
        self.no_x_reverse
    }

    /// The barrage's generator.
    pub closed spec fn generator(&self) -> Rand {
        self.rand
    }

    /// A barrage with no waits, short range and mirroring allowed, drawing from a
    /// generator seeded with `seed`.
    pub fn new(seed: u64) -> (b: Barrage)
        ensures
            b.generator().state() == seeded_words(seed),
            b.waits() == (0u32, 0u32),
            !b.is_long_range(),
            !b.never_mirrored(),
    {
        Barrage {
            rand: Rand::new(seed),
            long_range: false,
            prev_wait: 0,
            post_wait: 0,
            no_x_reverse: false,
        }
    }

    pub fn set_wait(&mut self, prev_wait: u32, post_wait: u32)
        ensures
            final(self).waits() == (prev_wait, post_wait),
            final(self).is_long_range() == old(self).is_long_range(),
            final(self).never_mirrored() == old(self).never_mirrored(),
    {
        self.prev_wait = prev_wait;
        self.post_wait = post_wait;
    }

    pub fn set_long_range(&mut self, long_range: bool)
        ensures
            final(self).waits() == old(self).waits(),
            final(self).is_long_range() == long_range,
            final(self).never_mirrored() == old(self).never_mirrored(),
    {
        self.long_range = long_range;
    }

    pub fn set_no_x_reverse(&mut self)
        ensures
            final(self).waits() == old(self).waits(),
            final(self).is_long_range() == old(self).is_long_range(),
            final(self).never_mirrored(),
    {
        self.no_x_reverse = true;
    }

    /// The side the top bullet is fired to: 1 when the barrage is never mirrored;
    /// otherwise the generator's next draw in `[0, 2)`, mapped to -1 or 1.
    pub fn x_reverse(&mut self) -> (r: i32)
        ensures
            old(self).never_mirrored() ==> r == 1 && final(self).generator() == old(self).generator(),
            !old(self).never_mirrored() ==> {
                let (v, t) = usize_draw(old(self).generator().state(), 2);
                &&& r == v * 2 - 1
                &&& final(self).generator().state() == t
            },
            r == 1 || r == -1,
            final(self).waits() == old(self).waits(),
            final(self).is_long_range() == old(self).is_long_range(),
            final(self).never_mirrored() == old(self).never_mirrored(),
    {
        if self.no_x_reverse {
            1
        } else {
            self.rand.gen_usize(2) as i32 * 2 - 1
        }
    }

    pub fn waits_of(&self) -> (r: (u32, u32))
        ensures
            r == self.waits(),
    {
        (self.prev_wait, self.post_wait)
    }

    pub fn long_range(&self) -> (r: bool)
        ensures
            r == self.is_long_range(),
    {
        self.long_range
    }
}

} // verus!
