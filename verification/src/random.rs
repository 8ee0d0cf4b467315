use vstd::prelude::*;
#[allow(deprecated)]
use rand::XorShiftRng;
use rand_core::{RngCore, SeedableRng};

verus! {

#[verifier::external_type_specification]
#[verifier::external_body]
#[allow(deprecated)]
pub struct ExXorShiftRng(XorShiftRng);

/// The state words `[x, y, z, w]` that a xorshift generator holds.
pub uninterp spec fn xorshift_words(rng: XorShiftRng) -> Seq<u32>;

/// One step of the PCG stream that `SeedableRng::seed_from_u64` seeds from: the state
/// times the multiplier plus the increment, wrapping.
pub open spec fn pcg_advance(state: u64) -> u64 {
    (state * 6364136223846793005u64 + 11634580027462260723u64) as u64
}

/// `x` rotated right by `r` bits (`r` below 32).
pub open spec fn rotate_right_u32(x: u32, r: u32) -> u32 {
    if r == 0 {
        x
    } else {
        ((x >> r) | (x << ((32 - r) as u32))) as u32
    }
}

/// The PCG output of a state: its high bits, xorshifted, rotated by its top five bits.
pub open spec fn pcg_output(state: u64) -> u32 {
    let xorshifted = (((state >> 18u64) ^ state) >> 27u64) as u32;
    let rot = (state >> 59u64) as u32;
    rotate_right_u32(xorshifted, rot)
}

/// The state words that `SeedableRng::seed_from_u64(seed)` gives a xorshift generator:
/// the outputs of four PCG steps from `seed`, read in order as the words `x, y, z, w`,
/// except that four zero words are replaced by the generator's fixed fallback.
pub open spec fn seeded_words(seed: u64) -> Seq<u32> {
    let s1 = pcg_advance(seed);
    let s2 = pcg_advance(s1);
    let s3 = pcg_advance(s2);
    let s4 = pcg_advance(s3);
    let w = seq![pcg_output(s1), pcg_output(s2), pcg_output(s3), pcg_output(s4)];
    if w[0] == 0 && w[1] == 0 && w[2] == 0 && w[3] == 0 {
        seq![0xBAD_5EEDu32, 0xBAD_5EEDu32, 0xBAD_5EEDu32, 0xBAD_5EEDu32]
    } else {
        w
    }
}

/// One `next_u32` step of a xorshift generator from state `s`: the words move down
/// one place and a new last word is mixed from the first and the last; the new last
/// word is the output.
pub open spec fn xorshift_next_u32(s: Seq<u32>) -> (u32, Seq<u32>) {
    let x = s[0];
    let t: u32 = x ^ (x << 11u32);
    let w = s[3];
    let nw: u32 = w ^ (w >> 19u32) ^ (t ^ (t >> 8u32));
    (nw, seq![s[1], s[2], s[3], nw])
}

/// One `next_u64` draw from state `s`: two `next_u32` steps, the first giving the low
/// half and the second the high half.
pub open spec fn xorshift_next_u64(s: Seq<u32>) -> (u64, Seq<u32>) {
    let (lo, s1) = xorshift_next_u32(s);
    let (hi, s2) = xorshift_next_u32(s1);
    ((((hi as u64) << 32u64) | (lo as u64)) as u64, s2)
}

/// A xorshift generator seeded from `seed` (`SeedableRng::seed_from_u64`, which the
/// generator takes from the trait's default): it holds the words `seeded_words(seed)`.
#[verifier::external_body]
#[allow(deprecated)]
fn seeded_rng(seed: u64) -> (r: XorShiftRng)
    ensures
        xorshift_words(r) == seeded_words(seed),
{
    XorShiftRng::seed_from_u64(seed)
}

/// The generator's next 32-bit output (`RngCore::next_u32`, which the deprecated
/// wrapper hands to `rand_xorshift`): one xorshift step.
#[verifier::external_body]
#[allow(deprecated)]
fn draw_u32(rng: &mut XorShiftRng) -> (r: u32)
    ensures
        (r, xorshift_words(*final(rng))) == xorshift_next_u32(xorshift_words(*old(rng))),
{
    rng.next_u32()
}

/// The generator's next 64-bit output (`RngCore::next_u64`, which `rand_xorshift`
/// makes of two `next_u32` steps, low half first).
#[verifier::external_body]
#[allow(deprecated)]
fn draw_u64(rng: &mut XorShiftRng) -> (r: u64)
    ensures
        (r, xorshift_words(*final(rng))) == xorshift_next_u64(xorshift_words(*old(rng))),
{
    rng.next_u64()
}

/// The value in `[0, high)` that a raw draw `next` gives (0 when `high` is 0).
pub open spec fn usize_below_spec(next: u64, high: usize) -> usize {
    if high == 0 {
        0
    } else {
        ((next as usize) % high) as usize
    }
}

/// A draw in `[0, high)` from state `s`, with the state after it: no step when `high`
/// is 0; otherwise a 32-bit step where a `usize` has 32 bits and a 64-bit step
/// elsewhere, reduced modulo `high`.
pub open spec fn usize_draw(s: Seq<u32>, high: usize) -> (usize, Seq<u32>) {
    if high == 0 {
        (0, s)
    } else if usize::BITS == 32 {
        let (v, t) = xorshift_next_u32(s);
        (((v as usize) % high) as usize, t)
    } else {
        let (v, t) = xorshift_next_u64(s);
        (usize_below_spec(v, high), t)
    }
}

/// The results of a run of draws with bounds `highs` from state `s`.
pub open spec fn draws_from(s: Seq<u32>, highs: Seq<usize>) -> Seq<usize>
    decreases highs.len(),
{
    if highs.len() == 0 {
        Seq::empty()
    } else {
        let (v, t) = usize_draw(s, highs[0]);
        seq![v] + draws_from(t, highs.drop_first())
    }
}

/// The pseudo-random number generator of the game.
pub struct Rand {
    #[allow(deprecated)]
    rng: XorShiftRng,
}

impl Rand {
    /// The generator's state words, from which every later draw follows.
    pub closed spec fn state(&self) -> Seq<u32> {
        xorshift_words(self.rng)
    }

    /// A generator seeded with `seed`.
    #[allow(deprecated)]
    pub fn new(seed: u64) -> (r: Rand)
        ensures
            r.state() == seeded_words(seed),
    {
        Rand { rng: seeded_rng(seed) }
    }

    /// A generator seeded with `seed` whose draws are kept out of game recordings.
    #[allow(deprecated)]
    pub fn new_not_recorded(seed: u64) -> (r: Rand)
        ensures
            r.state() == seeded_words(seed),
    {
        Rand { rng: seeded_rng(seed) }
    }

    /// The seed a clock reading gives: the milliseconds since the Unix epoch, or 0 when
    /// the clock stands before the epoch.
    pub fn rand_seed(since_epoch: Option<(u64, u32)>) -> (seed: u64)
        requires
            since_epoch matches Some((secs, millis)) ==> secs * 1000 + millis <= u64::MAX,
        ensures
            seed == match since_epoch {
                Some((secs, millis)) => secs * 1000 + millis,
                None => 0,
            },
    {
        match since_epoch {
            Some((secs, millis)) => secs * 1000 + millis as u64,
            None => 0,
        }
    }

    /// Reseeds the generator: it starts afresh from `seed`, as `Rand::new(seed)` does.
    pub fn set_seed(&mut self, seed: u64)
        ensures
            final(self).state() == seeded_words(seed),
    {
        self.rng = seeded_rng(seed);
    }

    /// The next raw 64-bit draw.
    pub fn next_u64(&mut self) -> (r: u64)
        ensures
            (r, final(self).state()) == xorshift_next_u64(old(self).state()),
    {
        draw_u64(&mut self.rng)
    }

    /// Maps a raw draw onto `[0, high)`; 0 when `high` is 0.
    pub fn usize_below(next: u64, high: usize) -> (r: usize)
        ensures
            r == usize_below_spec(next, high),
            high > 0 ==> r < high,
            high == 0 ==> r == 0,
    {
        if high == 0 {
            0
        } else {
            next as usize % high
        }
    }

    /// A draw in `[0, high)`: the next raw draw reduced onto the range, taken as a
    /// 32-bit draw where a `usize` has 32 bits. When `high` is 0 the result is 0 and
    /// the generator is left as it was.
    pub fn gen_usize(&mut self, high: usize) -> (r: usize)
        ensures
            (r, final(self).state()) == usize_draw(old(self).state(), high),
            high > 0 ==> r < high,
            high == 0 ==> r == 0 && *final(self) == *old(self),
    {
        if high == 0 {
            return 0;
        }
        if usize::BITS == 32 {
            let next = draw_u32(&mut self.rng);
            next as usize % high
        } else {
            let next = draw_u64(&mut self.rng);
            Rand::usize_below(next, high)
        }
    }
}

/// Draws follow from the seed alone: two generators seeded with the same seed, or
/// one reseeded with it, give the same results for the same run of bounds.
pub proof fn law_same_seed_same_draws(a: Rand, b: Rand, seed: u64, highs: Seq<usize>)
    requires
        a.state() == seeded_words(seed),
        b.state() == seeded_words(seed),
    ensures
        draws_from(a.state(), highs) == draws_from(b.state(), highs),
{
}

} // verus!
