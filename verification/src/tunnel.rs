use vstd::prelude::*;
use crate::random::{usize_draw, Rand};

verus! {

/// The number of slices a torus is built to reach.
pub const TORUS_LENGTH: usize = 5000;
/// The shortest part of a torus, in slices.
pub const MIN_PART_LENGTH: usize = 64;
/// The spread of part lengths past the shortest.
pub const PART_LENGTH_SPREAD: usize = 30;
/// The slice of the first ring, which is the finish ring.
pub const FIRST_RING_IDX: usize = 5;
/// The shortest gap between two rings.
pub const MIN_RING_GAP: usize = 100;
/// The spread of ring gaps past the shortest.
pub const RING_GAP_SPREAD: usize = 200;

/// The ring slices from slice `ri` on, below `limit`, each gap after a ring being the
/// shortest gap plus a draw below the spread from generator state `s`; with the state
/// after the draws. One draw follows each ring, the last one included.
pub open spec fn rings_from(s: Seq<u32>, ri: int, limit: int) -> (Seq<usize>, Seq<u32>)
    decreases if ri < limit {
        limit - ri
    } else {
        0
    },
{
    if ri < 0 || ri >= limit {
        (Seq::empty(), s)
    } else {
        let d = usize_draw(s, RING_GAP_SPREAD);
        let rest = rings_from(d.1, ri + MIN_RING_GAP + d.0, limit);
        (seq![ri as usize] + rest.0, rest.1)
    }
}

/// Whether the ring at slice `r` is passed when moving from slice `pidx` to slice
/// `idx` of a torus, going round its end when `idx` is not past `pidx`.
pub open spec fn ring_passed(r: int, idx: int, pidx: int) -> bool {
    if idx > pidx {
        pidx < r <= idx
    } else {
        r <= idx || r > pidx
    }
}

/// The first ring passed when moving from `pidx` to `idx`, searching from ring `from`.
pub open spec fn first_ring_passed(rings: Seq<usize>, idx: int, pidx: int, from: int) -> Option<int>
    decreases rings.len() - from,
{
    if from < 0 || from >= rings.len() {
        None
    } else if ring_passed(rings[from] as int, idx, pidx) {
        Some(from)
    } else {
        first_ring_passed(rings, idx, pidx, from + 1)
    }
}

/// The ring that a move from slice `pidx` to slice `idx` passes is the first ring (from
/// ring `from` on) lying on the slices crossed. Moving forward (`idx > pidx`) those are
/// the slices after `pidx` up to and including `idx`, so a ring at or before `pidx`,
/// or past `idx`, is never reported; going round the end (`idx <= pidx`) they are the
/// slices up to `idx` and those after `pidx`. When no ring lies on them, none is
/// reported.
pub proof fn law_ring_between(rings: Seq<usize>, idx: int, pidx: int, from: int)
    requires
        0 <= from,
    ensures
        first_ring_passed(rings, idx, pidx, from) matches Some(i) ==> {
            &&& from <= i < rings.len()
            &&& idx > pidx ==> pidx < rings[i] && rings[i] <= idx
            &&& idx <= pidx ==> rings[i] <= idx || rings[i] > pidx
            &&& forall|k: int|
                from <= k < i ==> !(idx > pidx && pidx < #[trigger] rings[k] && rings[k] <= idx)
                    && !(idx <= pidx && (rings[k] <= idx || rings[k] > pidx))
        },
        first_ring_passed(rings, idx, pidx, from) is None ==> forall|k: int|
            from <= k < rings.len() ==> !(idx > pidx && pidx < #[trigger] rings[k] && rings[k]
                <= idx) && !(idx <= pidx && (rings[k] <= idx || rings[k] > pidx)),
    decreases rings.len() - from,
{
    if from < rings.len() {
        law_ring_between(rings, idx, pidx, from + 1);
    }
}

/// The layout of a torus: its slices grouped into consecutive parts, each with its
/// own course shape, and the slices that carry rings.
pub struct TorusLayout {
    slice_num: usize,
    part_ends: Vec<usize>,
    rings: Vec<usize>,
}

impl TorusLayout {
    pub closed spec fn slice_count(&self) -> int {
        self.slice_num as int
    }

    /// The end (exclusive) of each part; each part starts where the previous ends.
    pub closed spec fn ends(&self) -> Seq<usize> {
        self.part_ends@
    }

    pub closed spec fn ring_slices(&self) -> Seq<usize> {
        self.rings@
    }

    /// The first slice of part `i`.
    pub open spec fn part_start(&self, i: int) -> int {
        if i == 0 {
            0
        } else {
            self.ends()[i - 1] as int
        }
    }

    /// The parts are consecutive and not empty and end at the last slice; the rings
    /// lie on slices in increasing order.
    pub open spec fn wf(&self) -> bool {
        &&& forall|i: int, j: int|
            0 <= i < j < self.ends().len() ==> self.ends()[i] < self.ends()[j]
        &&& self.ends().len() > 0 ==> self.ends()[0] > 0 && self.ends().last()
            == self.slice_count()
        &&& self.ends().len() == 0 ==> self.slice_count() == 0
        &&& forall|i: int, j: int|
            0 <= i < j < self.ring_slices().len() ==> self.ring_slices()[i]
                < self.ring_slices()[j]
        &&& forall|i: int|
            0 <= i < self.ring_slices().len() ==> self.ring_slices()[i] < self.slice_count()
    }

    /// An empty torus.
    pub fn new() -> (t: TorusLayout)
        ensures
            t.wf(),
            t.slice_count() == 0,
            t.ends().len() == 0,
            t.ring_slices().len() == 0,
    {
        TorusLayout { slice_num: 0, part_ends: Vec::new(), rings: Vec::new() }
    }

    /// The length of a part from a draw below `PART_LENGTH_SPREAD`.
    pub fn part_length(draw: usize) -> (len: usize)
        requires
            draw < PART_LENGTH_SPREAD,
        ensures
            len == MIN_PART_LENGTH + draw,
    {
        MIN_PART_LENGTH + draw
    }

    /// Whether the torus has reached its length, so that no part is added any more.
    pub fn is_complete(&self) -> (r: bool)
        ensures
            r == (self.slice_count() >= TORUS_LENGTH),
    {
        self.slice_num >= TORUS_LENGTH
    }

    /// Adds the next part of an unfinished torus: its length is the shortest part
    /// plus the generator's next draw below the spread. Between two parts the caller
    /// shapes the part just added, which may draw from the same generator. Returns the
    /// length.
    pub fn draw_part(&mut self, rand: &mut Rand) -> (len: usize)
        requires
            old(self).wf(),
            old(self).ring_slices().len() == 0,
            old(self).slice_count() < TORUS_LENGTH,
        ensures
            final(self).wf(),
            len == MIN_PART_LENGTH + usize_draw(old(rand).state(), PART_LENGTH_SPREAD).0,
            final(rand).state() == usize_draw(old(rand).state(), PART_LENGTH_SPREAD).1,
            MIN_PART_LENGTH <= len < MIN_PART_LENGTH + PART_LENGTH_SPREAD,
            final(self).slice_count() == old(self).slice_count() + len,
            final(self).ends() == old(self).ends().push(final(self).slice_count() as usize),
            final(self).ring_slices() == old(self).ring_slices(),
    {
        let draw = rand.gen_usize(PART_LENGTH_SPREAD);
        let len = TorusLayout::part_length(draw);
        self.push_part(len);
        len
    }

    /// Appends a part of `len` slices.
    pub fn push_part(&mut self, len: usize)
        requires
            old(self).wf(),
            len > 0,
            old(self).slice_count() + len <= usize::MAX,
            old(self).ring_slices().len() == 0,
        ensures
            final(self).wf(),
            final(self).slice_count() == old(self).slice_count() + len,
            final(self).ends() == old(self).ends().push(final(self).slice_count() as usize),
            final(self).ring_slices() == old(self).ring_slices(),
    {
        self.slice_num = self.slice_num + len;
        let end = self.slice_num;
        self.part_ends.push(end);
    }

    /// Places the rings: the finish ring at slice 5, then one after each random gap,
    /// up to 100 slices before the end.
    pub fn place_rings(&mut self, rand: &mut Rand)
        requires
            old(self).wf(),
            old(self).ring_slices().len() == 0,
            old(self).slice_count() >= MIN_RING_GAP,
            old(self).slice_count() <= usize::MAX - MIN_RING_GAP - RING_GAP_SPREAD,
        ensures
            final(self).wf(),
            final(self).slice_count() == old(self).slice_count(),
            final(self).ends() == old(self).ends(),
            FIRST_RING_IDX < final(self).slice_count() - MIN_RING_GAP ==> final(self).ring_slices().len()
                > 0 && final(self).ring_slices()[0] == FIRST_RING_IDX,
            forall|i: int|
                0 <= i < final(self).ring_slices().len() ==> FIRST_RING_IDX
                    <= #[trigger] final(self).ring_slices()[i] < final(self).slice_count()
                    - MIN_RING_GAP,
            forall|i: int|
                0 < i < final(self).ring_slices().len() ==> MIN_RING_GAP
                    <= #[trigger] final(self).ring_slices()[i] - final(self).ring_slices()[i
                    - 1] < MIN_RING_GAP + RING_GAP_SPREAD,
            (final(self).ring_slices(), final(rand).state()) == rings_from(
                old(rand).state(),
                FIRST_RING_IDX as int,
                old(self).slice_count() - MIN_RING_GAP,
            ),
    {
        let limit = self.slice_num - MIN_RING_GAP;
        let ghost whole = rings_from(rand.state(), FIRST_RING_IDX as int, limit as int);
        let mut rings: Vec<usize> = Vec::new();
        let mut ri: usize = FIRST_RING_IDX;
        while ri < limit
            invariant
                limit + MIN_RING_GAP + RING_GAP_SPREAD <= usize::MAX,
                FIRST_RING_IDX <= ri,
                ri < limit + MIN_RING_GAP + RING_GAP_SPREAD,
                rings@.len() == 0 ==> ri == FIRST_RING_IDX,
                rings@.len() > 0 ==> rings@[0] == FIRST_RING_IDX,
                rings@.len() > 0 ==> MIN_RING_GAP <= ri - rings@.last() < MIN_RING_GAP
                    + RING_GAP_SPREAD,
                forall|i: int| 0 <= i < rings@.len() ==> FIRST_RING_IDX <= #[trigger] rings@[i] < limit,
                forall|i: int|
                    0 < i < rings@.len() ==> MIN_RING_GAP <= #[trigger] rings@[i] - rings@[i
                        - 1] < MIN_RING_GAP + RING_GAP_SPREAD,
                forall|i: int| 0 <= i < rings@.len() ==> #[trigger] rings@[i] < ri,
                whole == rings_from(old(rand).state(), FIRST_RING_IDX as int, limit as int),
                rings@ + rings_from(rand.state(), ri as int, limit as int).0 == whole.0,
                rings_from(rand.state(), ri as int, limit as int).1 == whole.1,
            decreases limit + MIN_RING_GAP + RING_GAP_SPREAD - ri,
        {
            let ghost before = rings@;
            rings.push(ri);
            proof {
                assert forall|i: int| 0 <= i < rings@.len() implies FIRST_RING_IDX
                    <= #[trigger] rings@[i] < limit by {
                    if i < before.len() {
                        assert(rings@[i] == before[i]);
                    }
                }
                assert forall|i: int| 0 < i < rings@.len() implies MIN_RING_GAP
                    <= #[trigger] rings@[i] - rings@[i - 1] < MIN_RING_GAP + RING_GAP_SPREAD by {
                    if i < before.len() {
                        assert(rings@[i] == before[i]);
                        assert(rings@[i - 1] == before[i - 1]);
                    } else {
                        assert(rings@[i - 1] == before.last());
                    }
                }
            }
            let ghost s_before = rand.state();
            let ghost ri_before = ri as int;
            let gap = MIN_RING_GAP + rand.gen_usize(RING_GAP_SPREAD);
            ri = ri + gap;
            proof {
                let rest = rings_from(rand.state(), ri as int, limit as int);
                assert(rings_from(s_before, ri_before, limit as int) == (
                    seq![ri_before as usize] + rest.0,
                    rest.1,
                ));
                assert(before + (seq![ri_before as usize] + rest.0) =~= rings@ + rest.0);
            }
        }
        proof {
            assert forall|i: int, j: int| 0 <= i < j < rings@.len() implies rings@[i]
                < rings@[j] by {
                assert(rings@[i] < ri);
                lemma_increasing(rings@, i, j);
            }
        }
        self.rings = rings;
    }

    /// The part that holds slice `idx`.
    pub fn find_part(&self, idx: usize) -> (i: usize)
        requires
            self.wf(),
            idx < self.slice_count(),
        ensures
            i < self.ends().len(),
            self.part_start(i as int) <= idx < self.ends()[i as int],
    {
        let mut lo: usize = 0;
        let mut hi: usize = self.part_ends.len();
        while lo < hi
            invariant
                self.wf(),
                idx < self.slice_count(),
                lo <= hi <= self.part_ends@.len(),
                forall|j: int| 0 <= j < lo ==> self.part_ends@[j] <= idx,
                forall|j: int| hi <= j < self.part_ends@.len() ==> idx < self.part_ends@[j],
            decreases hi - lo,
        {
            let mid = lo + (hi - lo) / 2;
            if idx < self.part_ends[mid] {
                hi = mid;
            } else {
                lo = mid + 1;
            }
        }
        lo
    }

    /// The part before part `i`, the last one before the first.
    pub fn prev_part(&self, i: usize) -> (p: usize)
        requires
            i < self.ends().len(),
        ensures
            p == if i == 0 {
                self.ends().len() - 1
            } else {
                i - 1
            },
    {
        let n = self.part_ends.len();
        if i == 0 {
            n - 1
        } else {
            i - 1
        }
    }

    /// The first ring passed when moving from slice `pidx` to slice `idx`.
    pub fn ring_between(&self, idx: usize, pidx: usize) -> (r: Option<usize>)
        ensures
            r == match first_ring_passed(self.ring_slices(), idx as int, pidx as int, 0) {
                Some(i) => Some(i as usize),
                None => None,
            },
    {
        let mut i: usize = 0;
        while i < self.rings.len()
            invariant
                i <= self.rings@.len(),
                first_ring_passed(self.ring_slices(), idx as int, pidx as int, 0)
                    == first_ring_passed(self.ring_slices(), idx as int, pidx as int, i as int),
            decreases self.rings@.len() - i,
        {
            let r = self.rings[i];
            let passed = if idx > pidx {
                r <= idx && r > pidx
            } else {
                r <= idx || r > pidx
            };
            if passed {
                return Some(i);
            }
            i = i + 1;
        }
        None
    }

    /// The slice `n` slices on from `idx`, going round the torus's end once.
    pub fn advance(&self, idx: usize, n: usize) -> (r: usize)
        requires
            idx + n < 2 * self.slice_count(),
            idx + n <= usize::MAX,
        ensures
            r == if idx + n >= self.slice_count() {
                idx + n - self.slice_count()
            } else {
                idx + n
            },
    {
        let t = idx + n;
        if t >= self.slice_num {
            t - self.slice_num
        } else {
            t
        }
    }

    /// The number of slices.
    pub fn slice_num(&self) -> (r: usize)
        ensures
            r == self.slice_count(),
    {
        self.slice_num
    }

    /// The slices that carry rings, in order.
    pub fn ring_indexes(&self) -> (r: &Vec<usize>)
        ensures
            r@ == self.ring_slices(),
    {
        &self.rings
    }

    /// The slices of part `i`.
    pub fn part_bounds(&self, i: usize) -> (r: (usize, usize))
        requires
            i < self.ends().len(),
        ensures
            r.0 == self.part_start(i as int),
            r.1 == self.ends()[i as int],
    {
        if i == 0 {
            (0, self.part_ends[0])
        } else {
            (self.part_ends[i - 1], self.part_ends[i])
        }
    }
}

proof fn lemma_increasing(s: Seq<usize>, i: int, j: int)
    requires
        0 <= i < j < s.len(),
        forall|k: int| 0 < k < s.len() ==> #[trigger] s[k] - s[k - 1] >= MIN_RING_GAP,
    ensures
        s[i] < s[j],
    decreases j - i,
{
    assert(s[j] - s[j - 1] >= MIN_RING_GAP);
    if i < j - 1 {
        lemma_increasing(s, i, j - 1);
    }
}

/// Every slice of the torus lies in exactly one part.
pub proof fn law_parts_tile_the_torus(t: TorusLayout, idx: int, i: int, j: int)
    requires
        t.wf(),
        0 <= i < t.ends().len(),
        0 <= j < t.ends().len(),
        t.part_start(i) <= idx < t.ends()[i],
        t.part_start(j) <= idx < t.ends()[j],
    ensures
        i == j,
{
    if i < j {
        assert(t.ends()[i] <= t.part_start(j)) by {
            if i < j - 1 {
                assert(t.ends()[i] < t.ends()[j - 1]);
            }
        }
    } else if j < i {
        assert(t.ends()[j] <= t.part_start(i)) by {
            if j < i - 1 {
                assert(t.ends()[j] < t.ends()[i - 1]);
            }
        }
    }
}

} // verus!
