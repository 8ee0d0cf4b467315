use vstd::prelude::*;
use vstd::arithmetic::div_mod::lemma_add_mod_noop_right;

verus! {

/// Whether a slot of a pool holds a live actor, and under which generation.
enum ActorState {
    NotActing,
    Acting { generation: usize },
}

/// The generation a slot state carries, if the slot is live.
spec fn live_generation(st: ActorState) -> Option<usize> {
    match st {
        ActorState::Acting { generation } => Some(generation),
        ActorState::NotActing => None,
    }
}

/// One slot of a pool: the actor it holds and whether that actor is live.
pub struct PoolActor<T> {
    actor: T,
    state: ActorState,
}

/// A handle to an actor in a pool: the slot and the generation it was acquired under.
#[derive(Debug, Clone, Copy, PartialEq, Eq)]
pub struct PoolActorRef {
    idx: usize,
    generation: usize,
}

impl PoolActorRef {
    pub closed spec fn slot(self) -> int {
        self.idx as int
    }

    pub closed spec fn stamp(self) -> usize {
        self.generation
    }

    /// The slot this handle refers to.
    pub fn idx(&self) -> (r: usize)
        ensures
            r == self.slot(),
    {
        self.idx
    }

    /// The generation under which the slot was acquired.
    pub fn generation(&self) -> (r: usize)
        ensures
            r == self.stamp(),
    {
        self.generation
    }
}

/// The number of live slots in a sequence of slot states.
pub open spec fn acting_count(s: Seq<Option<usize>>) -> nat
    decreases s.len(),
{
    if s.len() == 0 {
        0
    } else {
        acting_count(s.drop_last()) + if s.last() is Some {
            1nat
        } else {
            0nat
        }
    }
}

/// The first free slot met when walking cyclically from `cursor + k` to `cursor + len`.
pub open spec fn first_free_after(s: Seq<Option<usize>>, cursor: int, k: int) -> Option<int>
    decreases s.len() + 1 - k,
{
    if k < 1 || k > s.len() {
        None
    } else if s[(cursor + k) % (s.len() as int)] is None {
        Some((cursor + k) % (s.len() as int))
    } else {
        first_free_after(s, cursor, k + 1)
    }
}

/// The live slots, in increasing slot order, each with its generation.
pub open spec fn acting_slots(s: Seq<Option<usize>>) -> Seq<(int, usize)>
    decreases s.len(),
{
    if s.len() == 0 {
        Seq::empty()
    } else {
        let rest = acting_slots(s.drop_last());
        match s.last() {
            Some(g) => rest.push(((s.len() - 1) as int, g)),
            None => rest,
        }
    }
}

/// The first live slot at or after `from` whose generation is at most `bound`.
pub open spec fn first_acting_within(s: Seq<Option<usize>>, from: int, bound: usize) -> Option<int>
    decreases s.len() - from,
{
    if from < 0 || from >= s.len() {
        None
    } else if s[from] matches Some(g) && g <= bound {
        Some(from)
    } else {
        first_acting_within(s, from + 1, bound)
    }
}

/// The slots that a walk over a release area with bound `bound` still visits from slot
/// `from` on: the live slots whose generation is at most the bound, in slot order.
pub open spec fn area_walk(s: Seq<Option<usize>>, from: int, bound: usize) -> Seq<int>
    decreases s.len() - from,
{
    if from < 0 || from >= s.len() {
        Seq::empty()
    } else if s[from] matches Some(g) && g <= bound {
        seq![from] + area_walk(s, from + 1, bound)
    } else {
        area_walk(s, from + 1, bound)
    }
}

proof fn lemma_acting_count_update(s: Seq<Option<usize>>, i: int, v: Option<usize>)
    requires
        0 <= i < s.len(),
    ensures
        acting_count(s.update(i, v)) + (if s[i] is Some { 1int } else { 0int }) == acting_count(s)
            + (if v is Some { 1int } else { 0int }),
    decreases s.len(),
{
    let t = s.update(i, v);
    if i == s.len() - 1 {
        assert(t.drop_last() =~= s.drop_last());
    } else {
        assert(t.drop_last() =~= s.drop_last().update(i, v));
        lemma_acting_count_update(s.drop_last(), i, v);
    }
}

proof fn lemma_acting_count_bounds(s: Seq<Option<usize>>)
    ensures
        acting_count(s) <= s.len(),
        acting_count(s) == s.len() <==> (forall|i: int| 0 <= i < s.len() ==> s[i] is Some),
        (forall|i: int| 0 <= i < s.len() ==> s[i] is None) ==> acting_count(s) == 0,
    decreases s.len(),
{
    if s.len() > 0 {
        lemma_acting_count_bounds(s.drop_last());
        if acting_count(s) == s.len() {
            assert forall|i: int| 0 <= i < s.len() implies s[i] is Some by {
                if i < s.len() - 1 {
                    assert(s.drop_last()[i] == s[i]);
                }
            }
        }
        if forall|i: int| 0 <= i < s.len() ==> s[i] is Some {
            assert forall|i: int| 0 <= i < s.drop_last().len() implies s.drop_last()[i] is Some by {
                assert(s.drop_last()[i] == s[i]);
            }
        }
        if forall|i: int| 0 <= i < s.len() ==> s[i] is None {
            assert forall|i: int| 0 <= i < s.drop_last().len() implies s.drop_last()[i] is None by {
                assert(s.drop_last()[i] == s[i]);
            }
        }
    }
}

/// Walking cyclically from any cursor visits every slot: the walk finds no free slot
/// exactly when every slot is live.
proof fn lemma_first_free_none_iff_full(s: Seq<Option<usize>>, cursor: int)
    requires
        0 <= cursor < s.len() || (s.len() == 0 && cursor == 0),
    ensures
        first_free_after(s, cursor, 1) is None <==> (forall|i: int| 0 <= i < s.len() ==> s[i] is Some),
{
    let n = s.len() as int;
    if first_free_after(s, cursor, 1) is None {
        assert forall|i: int| 0 <= i < n implies s[i] is Some by {
            let k = if i > cursor { i - cursor } else { i + n - cursor };
            lemma_first_free_none_prefix(s, cursor, k);
            assert((cursor + k) % n == i) by {
                if i > cursor {
                    vstd::arithmetic::div_mod::lemma_small_mod(i as nat, n as nat);
                } else {
                    vstd::arithmetic::div_mod::lemma_mod_add_multiples_vanish(i, n);
                    vstd::arithmetic::div_mod::lemma_small_mod(i as nat, n as nat);
                }
            }
        }
    } else {
        let j = first_free_after(s, cursor, 1)->0;
        lemma_first_free_some(s, cursor, 1);
        assert(s[j] is None);
    }
}

proof fn lemma_first_free_none_prefix(s: Seq<Option<usize>>, cursor: int, k: int)
    requires
        first_free_after(s, cursor, 1) is None,
        1 <= k <= s.len(),
    ensures
        first_free_after(s, cursor, k) is None,
        s[(cursor + k) % (s.len() as int)] is Some,
    decreases k,
{
    if k > 1 {
        lemma_first_free_none_prefix(s, cursor, k - 1);
    }
}

proof fn lemma_first_free_some(s: Seq<Option<usize>>, cursor: int, k: int)
    requires
        first_free_after(s, cursor, k) is Some,
    ensures
        0 <= first_free_after(s, cursor, k)->0 < s.len(),
        s[first_free_after(s, cursor, k)->0] is None,
    decreases s.len() + 1 - k,
{
    if k >= 1 && k <= s.len() && s[(cursor + k) % (s.len() as int)] is Some {
        lemma_first_free_some(s, cursor, k + 1);
    }
}

/// A fixed-size pool of actors. Slots are handed out in round-robin order; each
/// acquisition stamps the slot with a fresh generation, so that a handle to a
/// released slot never refers to a later occupant.
pub struct Pool<T> {
    actors: Vec<PoolActor<T>>,
    live: Ghost<Seq<Option<usize>>>,
    idx: usize,
    generation: usize,
    num: usize,
}

impl<T> Pool<T> {
    pub closed spec fn len(&self) -> nat {
        self.actors@.len()
    }

    pub closed spec fn states(&self) -> Seq<Option<usize>> {
        self.live@
    }

    pub closed spec fn actors(&self) -> Seq<T> {
        self.actors@.map_values(|pa: PoolActor<T>| pa.actor)
    }

    /// The slot after which the next search for a free slot starts.
    pub closed spec fn cursor(&self) -> int {
        self.idx as int
    }

    /// The last generation handed out.
    pub closed spec fn current_generation(&self) -> usize {
        self.generation
    }

    pub closed spec fn num(&self) -> nat {
        self.num as nat
    }

    /// The pool's invariant: the cursor is a slot (or zero for an empty pool), the
    /// count of live actors is exact, and no live slot carries a generation that has
    /// not been handed out yet.
    pub closed spec fn wf(&self) -> bool {
        &&& self.live@.len() == self.actors@.len()
        &&& forall|i: int|
            0 <= i < self.actors@.len() ==> #[trigger] self.live@[i] == live_generation(
                self.actors@[i].state,
            )
        &&& (self.idx < self.actors@.len() || (self.actors@.len() == 0 && self.idx == 0))
        &&& self.num == acting_count(self.states())
        &&& forall|i: int|
            0 <= i < self.actors@.len() ==> (#[trigger] self.states()[i] matches Some(g) ==> g
                <= self.generation)
        &&& forall|i: int, j: int|
            #![trigger self.states()[i], self.states()[j]]
            0 <= i < self.actors@.len() && 0 <= j < self.actors@.len() && i != j
                && self.states()[i] is Some ==> self.states()[i] != self.states()[j]
    }

    /// `r` names a live actor of this pool.
    pub open spec fn is_valid(&self, r: PoolActorRef) -> bool {
        &&& 0 <= r.slot() < self.len()
        &&& self.states()[r.slot()] == Some(r.stamp())
    }

    /// What the invariant gives of the live count and the lengths.
    pub proof fn lemma_wf_facts(&self)
        requires
            self.wf(),
        ensures
            self.num() <= self.len(),
            self.num() == self.len() <==> (forall|i: int|
                0 <= i < self.len() ==> self.states()[i] is Some),
            self.states().len() == self.len(),
            self.actors().len() == self.len(),
    {
        lemma_acting_count_bounds(self.states());
    }

    /// Creates a pool of `n` idle slots, each holding a default actor.
    pub fn new(n: usize) -> (pool: Self) where T: Default
        ensures
            pool.wf(),
            pool.len() == n,
            forall|i: int| 0 <= i < n ==> #[trigger] pool.states()[i] is None,
            forall|i: int| 0 <= i < n ==> call_ensures(T::default, (), #[trigger] pool.actors()[i]),
            pool.cursor() == 0,
            pool.current_generation() == 0,
            pool.num() == 0,
    {
        let mut actors: Vec<PoolActor<T>> = Vec::with_capacity(n);
        let mut i: usize = 0;
        while i < n
            invariant
                i <= n,
                actors@.len() == i,
                forall|j: int| 0 <= j < i ==> #[trigger] actors@[j].state is NotActing,
                forall|j: int| 0 <= j < i ==> call_ensures(T::default, (), #[trigger] actors@[j].actor),
            decreases n - i,
        {
            let actor = T::default();
            actors.push(PoolActor { actor, state: ActorState::NotActing });
            i = i + 1;
        }
        let ghost live = Seq::new(n as nat, |j: int| None::<usize>);
        let pool = Pool { actors, live: Ghost(live), idx: 0, generation: 0, num: 0 };
        proof {
            assert forall|j: int| 0 <= j < n implies #[trigger] pool.states()[j] is None by {
                assert(actors@[j].state is NotActing);
            }
            assert forall|j: int| 0 <= j < n implies call_ensures(T::default, (), #[trigger] pool.actors()[j]) by {
                assert(pool.actors()[j] == actors@[j].actor);
            }
            lemma_acting_count_bounds(pool.states());
        }
        pool
    }

    /// Takes the first idle slot after the cursor, in round-robin order, and marks it
    /// live under a fresh generation. Returns `None`, with the pool unchanged, when
    /// every slot is live.
    pub fn get_instance(&mut self) -> (res: Option<(&mut T, PoolActorRef)>)
        requires
            old(self).wf(),
            old(self).current_generation() < usize::MAX,
        ensures
            final(self).wf(),
            final(self).len() == old(self).len(),
            res is None <==> old(self).num() == old(self).len(),
            res is None <==> first_free_after(old(self).states(), old(self).cursor(), 1) is None,
            match res {
                None => *final(self) == *old(self),
                Some((a, r)) => {
                    &&& first_free_after(old(self).states(), old(self).cursor(), 1) == Some(
                        r.slot(),
                    )
                    &&& 0 <= r.slot() < old(self).len()
                    &&& old(self).states()[r.slot()] is None
                    &&& r.stamp() == old(self).current_generation() + 1
                    &&& *a == old(self).actors()[r.slot()]
                    &&& final(self).actors() == old(self).actors().update(r.slot(), *final(a))
                    &&& final(self).states() == old(self).states().update(
                        r.slot(),
                        Some(r.stamp()),
                    )
                    &&& final(self).cursor() == r.slot()
                    &&& final(self).current_generation() == r.stamp()
                    &&& final(self).num() == old(self).num() + 1
                    &&& final(self).is_valid(r)
                },
            },
    {
        proof {
            self.lemma_wf_facts();
            lemma_first_free_none_iff_full(self.states(), self.cursor());
        }
        let ghost s = self.states();
        let ghost c = self.idx as int;
        let len = self.actors.len();
        let mut found = false;
        let mut idx = self.idx;
        let mut i: usize = 0;
        if len > 0 {
            proof {
                vstd::arithmetic::div_mod::lemma_small_mod(c as nat, len as nat);
            }
        }
        while i < len
            invariant_except_break
                i <= len,
                len == s.len(),
                s == self.states(),
                c == self.idx,
                self.wf(),
                len > 0 ==> idx == (c + i) % (len as int),
                len == 0 ==> idx == c,
                i == len ==> idx == c,
                first_free_after(s, c, 1) == first_free_after(s, c, i + 1),
                !found,
            ensures
                found ==> idx < len && first_free_after(s, c, 1) == Some(idx as int),
                !found ==> first_free_after(s, c, 1) is None && idx == self.idx,
                s == self.states(),
                self.wf(),
            decreases len - i,
        {
            proof {
                vstd::arithmetic::div_mod::lemma_small_mod(idx as nat, len as nat);
                lemma_add_mod_noop_right(1, c + i, len as int);
            }
            idx = (idx + 1) % len;
            assert(idx == (c + (i + 1)) % (len as int));
            if let ActorState::NotActing = self.actors[idx].state {
                found = true;
                assert(s[idx as int] is None);
                break;
            }
            assert(s[idx as int] is Some);
            i = i + 1;
            if i == len {
                proof {
                    vstd::arithmetic::div_mod::lemma_mod_add_multiples_vanish(c, len as int);
                    vstd::arithmetic::div_mod::lemma_small_mod(c as nat, len as nat);
                }
                assert(idx == c);
                assert(first_free_after(s, c, i + 1) is None);
            }
        }
        if found {
            let ghost old_self = *self;
            let generation = self.generation + 1;
            self.generation = generation;
            self.idx = idx;
            self.actors[idx].state = ActorState::Acting { generation };
            self.live = Ghost(self.live@.update(idx as int, Some(generation)));
            self.num = self.num + 1;
            proof {
                assert(self.actors() =~= old_self.actors());
                lemma_first_free_some(s, c, 1);
                lemma_acting_count_update(s, idx as int, Some(generation));
                assert forall|j: int| 0 <= j < self.actors@.len() implies (
                #[trigger] self.states()[j] matches Some(g) ==> g <= self.generation) by {
                    if j != idx {
                        assert(old_self.states()[j] == self.states()[j]);
                    }
                }
            }
            Some((&mut self.actors[idx].actor, PoolActorRef { idx, generation }))
        } else {
            None
        }
    }

    /// Advances the cursor by one slot and takes that slot whether or not it is live,
    /// stamping it with a fresh generation. The live count grows only when the slot
    /// was idle.
    pub fn get_instance_forced(&mut self) -> (res: (&mut T, PoolActorRef))
        requires
            old(self).wf(),
            old(self).len() > 0,
            old(self).current_generation() < usize::MAX,
        ensures
            final(self).wf(),
            final(self).len() == old(self).len(),
            res.1.slot() == (old(self).cursor() + 1) % (old(self).len() as int),
            0 <= res.1.slot() < old(self).len(),
            res.1.stamp() == old(self).current_generation() + 1,
            *res.0 == old(self).actors()[res.1.slot()],
            final(self).actors() == old(self).actors().update(res.1.slot(), *final(res.0)),
            final(self).states() == old(self).states().update(res.1.slot(), Some(res.1.stamp())),
            final(self).cursor() == res.1.slot(),
            final(self).current_generation() == res.1.stamp(),
            final(self).num() == old(self).num() + (if old(self).states()[res.1.slot()] is None {
                1int
            } else {
                0int
            }),
            final(self).is_valid(res.1),
    {
        proof {
            self.lemma_wf_facts();
        }
        let ghost s = self.states();
        let ghost old_self = *self;
        let len = self.actors.len();
        let idx = (self.idx + 1) % len;
        self.idx = idx;
        let generation = self.generation + 1;
        self.generation = generation;
        let was_idle = match self.actors[idx].state {
            ActorState::NotActing => true,
            ActorState::Acting { .. } => false,
        };
        if was_idle {
            proof {
                lemma_acting_count_update(s, idx as int, Some(generation));
            }
            self.num = self.num + 1;
        } else {
            proof {
                lemma_acting_count_update(s, idx as int, Some(generation));
            }
        }
        self.actors[idx].state = ActorState::Acting { generation };
        self.live = Ghost(self.live@.update(idx as int, Some(generation)));
        proof {
            assert(self.actors() =~= old_self.actors());
            assert forall|j: int| 0 <= j < self.actors@.len() implies (
            #[trigger] self.states()[j] matches Some(g) ==> g <= self.generation) by {
                if j != idx {
                    assert(old_self.states()[j] == self.states()[j]);
                }
            }
        }
        (&mut self.actors[idx].actor, PoolActorRef { idx, generation })
    }

    /// Gives a live actor's slot back to the pool.
    pub fn release(&mut self, index: PoolActorRef)
        requires
            old(self).wf(),
            old(self).is_valid(index),
        ensures
            final(self).wf(),
            final(self).len() == old(self).len(),
            final(self).actors() == old(self).actors(),
            final(self).states() == old(self).states().update(index.slot(), None),
            final(self).cursor() == old(self).cursor(),
            final(self).current_generation() == old(self).current_generation(),
            final(self).num() + 1 == old(self).num(),
            !final(self).is_valid(index),
    {
        proof {
            self.lemma_wf_facts();
        }
        let ghost s = self.states();
        let ghost old_self = *self;
        proof {
            lemma_acting_count_update(s, index.idx as int, None);
        }
        self.num = self.num - 1;
        self.actors[index.idx].state = ActorState::NotActing;
        self.live = Ghost(self.live@.update(index.idx as int, None));
        proof {
            assert(self.actors() =~= old_self.actors());
            assert forall|j: int| 0 <= j < self.actors@.len() implies (
            #[trigger] self.states()[j] matches Some(g) ==> g <= self.generation) by {
                if j != index.idx {
                    assert(old_self.states()[j] == self.states()[j]);
                }
            }
        }
    }

    /// Makes every slot idle and moves the cursor back to the first slot.
    pub fn clear(&mut self)
        requires
            old(self).wf(),
        ensures
            final(self).wf(),
            final(self).len() == old(self).len(),
            final(self).actors() == old(self).actors(),
            forall|i: int| 0 <= i < final(self).len() ==> #[trigger] final(self).states()[i] is None,
            final(self).cursor() == 0,
            final(self).current_generation() == old(self).current_generation(),
            final(self).num() == 0,
    {
        let len = self.actors.len();
        let mut i: usize = 0;
        while i < len
            invariant
                i <= len,
                len == self.actors@.len(),
                self.actors@.len() == old(self).actors@.len(),
                forall|j: int| 0 <= j < len ==> #[trigger] self.actors@[j].actor == old(self).actors@[j].actor,
                self.idx == old(self).idx,
                self.generation == old(self).generation,
                self.num == old(self).num,
                forall|j: int| 0 <= j < i ==> #[trigger] self.actors@[j].state is NotActing,
            decreases len - i,
        {
            self.actors[i].state = ActorState::NotActing;
            i = i + 1;
        }
        self.idx = 0;
        self.num = 0;
        self.live = Ghost(Seq::new(len as nat, |j: int| None::<usize>));
        proof {
            assert forall|j: int| 0 <= j < self.len() implies #[trigger] self.states()[j]
                is None by {
                assert(self.actors@[j].state is NotActing);
            }
            assert(self.actors() =~= old(self).actors());
            lemma_acting_count_bounds(self.states());
        }
    }

    /// Whether `index` names a live actor of this pool.
    pub fn is_live(&self, index: PoolActorRef) -> (r: bool)
        requires
            self.wf(),
        ensures
            r == self.is_valid(index),
    {
        if index.idx >= self.actors.len() {
            return false;
        }
        match self.actors[index.idx].state {
            ActorState::Acting { generation } => generation == index.generation,
            ActorState::NotActing => false,
        }
    }

    /// The last generation handed out.
    pub fn generation_stamp(&self) -> (r: usize)
        ensures
            r == self.current_generation(),
    {
        self.generation
    }

    /// The number of slots.
    pub fn size(&self) -> (r: usize)
        requires
            self.wf(),
        ensures
            r == self.len(),
    {
        self.actors.len()
    }

    /// The number of live actors.
    pub fn get_num(&self) -> (r: usize)
        requires
            self.wf(),
        ensures
            r == self.num(),
            r == acting_count(self.states()),
    {
        self.num
    }

    /// The actor that `index` names, or `None` when the slot is idle or has been
    /// taken again under another generation.
    pub fn maybe_index_mut(&mut self, index: PoolActorRef) -> (res: Option<&mut T>)
        requires
            old(self).wf(),
            index.slot() < old(self).len(),
        ensures
            final(self).wf(),
            res is Some <==> old(self).is_valid(index),
            final(self).states() == old(self).states(),
            final(self).len() == old(self).len(),
            final(self).cursor() == old(self).cursor(),
            final(self).current_generation() == old(self).current_generation(),
            final(self).num() == old(self).num(),
            match res {
                Some(a) => {
                    &&& *a == old(self).actors()[index.slot()]
                    &&& final(self).actors() == old(self).actors().update(index.slot(), *final(a))
                },
                None => final(self).actors() == old(self).actors(),
            },
    {
        let live = match self.actors[index.idx].state {
            ActorState::Acting { generation } => generation == index.generation,
            ActorState::NotActing => false,
        };
        if live {
            Some(&mut self.actors[index.idx].actor)
        } else {
            None
        }
    }

    /// The actor that a live handle names.
    pub fn index(&self, index: PoolActorRef) -> (r: &T)
        requires
            self.wf(),
            self.is_valid(index),
        ensures
            *r == self.actors()[index.slot()],
    {
        &self.actors[index.idx].actor
    }

    /// Mutable access to the actor that a live handle names.
    pub fn index_mut(&mut self, index: PoolActorRef) -> (r: &mut T)
        requires
            old(self).wf(),
            old(self).is_valid(index),
        ensures
            final(self).wf(),
            *r == old(self).actors()[index.slot()],
            final(self).actors() == old(self).actors().update(index.slot(), *final(r)),
            final(self).states() == old(self).states(),
            final(self).len() == old(self).len(),
            final(self).cursor() == old(self).cursor(),
            final(self).current_generation() == old(self).current_generation(),
            final(self).num() == old(self).num(),
    {
        &mut self.actors[index.idx].actor
    }

    /// Handles to every live actor, in slot order.
    pub fn as_refs(&self) -> (refs: Vec<PoolActorRef>)
        requires
            self.wf(),
        ensures
            refs@.map_values(|r: PoolActorRef| (r.slot(), r.stamp())) == acting_slots(
                self.states(),
            ),
            forall|k: int| 0 <= k < refs@.len() ==> self.is_valid(#[trigger] refs@[k]),
    {
        let ghost s = self.states();
        let mut refs: Vec<PoolActorRef> = Vec::new();
        let len = self.actors.len();
        let mut i: usize = 0;
        while i < len
            invariant
                i <= len,
                len == self.actors@.len(),
                s == self.states(),
                self.wf(),
                refs@.map_values(|r: PoolActorRef| (r.slot(), r.stamp())) == acting_slots(
                    s.take(i as int),
                ),
                forall|k: int| 0 <= k < refs@.len() ==> self.is_valid(#[trigger] refs@[k]),
            decreases len - i,
        {
            assert(s.take(i + 1).drop_last() =~= s.take(i as int));
            match self.actors[i].state {
                ActorState::Acting { generation } => {
                    refs.push(PoolActorRef { idx: i, generation });
                    assert(refs@.map_values(|r: PoolActorRef| (r.slot(), r.stamp())) =~= acting_slots(
                        s.take(i + 1),
                    ));
                },
                ActorState::NotActing => {},
            }
            i = i + 1;
        }
        assert(s.take(len as int) =~= s);
        refs
    }

    /// Opens an area over the actors that are live now: handles acquired after this
    /// call carry a later generation and are outside the area.
    pub fn split(&self) -> (area: PoolReleaseArea)
        requires
            self.wf(),
        ensures
            area.bound() == self.current_generation(),
    {
        PoolReleaseArea { generation: self.generation }
    }
}

/// The actors of a pool that were live when the area was opened, named by the last
/// generation handed out at that moment.
pub struct PoolReleaseArea {
    generation: usize,
}

impl PoolReleaseArea {
    pub closed spec fn bound(&self) -> usize {
        self.generation
    }

    /// Releases an actor of the area.
    pub fn release<T>(&self, pool: &mut Pool<T>, index: PoolActorRef)
        requires
            old(pool).wf(),
            old(pool).is_valid(index),
            index.stamp() <= self.bound(),
        ensures
            final(pool).wf(),
            final(pool).len() == old(pool).len(),
            final(pool).actors() == old(pool).actors(),
            final(pool).states() == old(pool).states().update(index.slot(), None),
            final(pool).cursor() == old(pool).cursor(),
            final(pool).current_generation() == old(pool).current_generation(),
            final(pool).num() + 1 == old(pool).num(),
    {
        pool.release(index)
    }

    /// A walk over the area's actors in slot order.
    pub fn into_iter(&self) -> (it: PoolReleaseAreaIter)
        ensures
            it.bound() == self.bound(),
            it.position() == 0,
            it.current() is None,
    {
        PoolReleaseAreaIter { generation: self.generation, index: 0, current_ref: None }
    }
}

/// A walk over the actors of a release area, which can release the actor it stands on.
pub struct PoolReleaseAreaIter {
    generation: usize,
    index: usize,
    current_ref: Option<PoolActorRef>,
}

impl PoolReleaseAreaIter {
    pub closed spec fn bound(&self) -> usize {
        self.generation
    }

    /// The slot from which the next step searches.
    pub closed spec fn position(&self) -> int {
        self.index as int
    }

    /// The actor returned by the last step, if any.
    pub closed spec fn current(&self) -> Option<PoolActorRef> {
        self.current_ref
    }

    /// Steps to the next live actor, at or after the current position, whose
    /// generation lies within the area.
    pub fn next<'a, T>(&mut self, pool: &'a mut Pool<T>) -> (res: Option<(&'a mut T, PoolActorRef)>)
        requires
            old(pool).wf(),
            old(self).position() <= old(pool).len(),
        ensures
            final(pool).wf(),
            final(pool).states() == old(pool).states(),
            final(pool).len() == old(pool).len(),
            final(pool).cursor() == old(pool).cursor(),
            final(pool).current_generation() == old(pool).current_generation(),
            final(pool).num() == old(pool).num(),
            final(self).bound() == old(self).bound(),
            final(self).position() <= old(pool).len(),
            match res {
                Some((a, r)) => {
                    &&& first_acting_within(old(pool).states(), old(self).position(), old(self).bound())
                        == Some(r.slot())
                    &&& old(pool).is_valid(r)
                    &&& r.stamp() <= old(self).bound()
                    &&& *a == old(pool).actors()[r.slot()]
                    &&& final(pool).actors() == old(pool).actors().update(r.slot(), *final(a))
                    &&& final(self).position() == r.slot() + 1
                    &&& final(self).current() == Some(r)
                },
                None => {
                    &&& first_acting_within(old(pool).states(), old(self).position(), old(self).bound())
                        is None
                    &&& final(pool).actors() == old(pool).actors()
                    &&& final(self).position() == old(pool).len()
                    &&& final(self).current() is None
                },
            },
    {
        let ghost s = pool.states();
        let max_index = pool.actors.len();
        let max_gen = self.generation;
        let mut idx = self.index;
        let mut generation: usize = 0;
        let mut found = false;
        while idx < max_index
            invariant_except_break
                self.index <= idx <= max_index,
                max_index == s.len(),
                s == pool.states(),
                pool.wf(),
                max_gen == self.generation,
                first_acting_within(s, self.index as int, max_gen) == first_acting_within(
                    s,
                    idx as int,
                    max_gen,
                ),
                !found,
            ensures
                found ==> idx < max_index && first_acting_within(s, self.index as int, max_gen)
                    == Some(idx as int) && s[idx as int] == Some(generation) && generation <= max_gen,
                !found ==> idx == max_index && first_acting_within(s, self.index as int, max_gen)
                    is None,
                s == pool.states(),
                pool.wf(),
            decreases max_index - idx,
        {
            match pool.actors[idx].state {
                ActorState::Acting { generation: g } => {
                    if g <= max_gen {
                        generation = g;
                        found = true;
                        break;
                    }
                },
                ActorState::NotActing => {},
            }
            idx = idx + 1;
        }
        if found {
            let r = PoolActorRef { idx, generation };
            self.current_ref = Some(r);
            self.index = idx + 1;
            Some((&mut pool.actors[idx].actor, r))
        } else {
            self.current_ref = None;
            self.index = idx;
            None
        }
    }

    /// Releases the actor that the last step returned.
    pub fn release<T>(&mut self, pool: &mut Pool<T>)
        requires
            old(pool).wf(),
            old(self).current() matches Some(r) && old(pool).is_valid(r) && r.stamp()
                <= old(self).bound(),
        ensures
            final(pool).wf(),
            *final(self) == *old(self),
            final(pool).len() == old(pool).len(),
            final(pool).actors() == old(pool).actors(),
            final(pool).states() == old(pool).states().update(old(self).current()->0.slot(), None),
            final(pool).cursor() == old(pool).cursor(),
            final(pool).current_generation() == old(pool).current_generation(),
            final(pool).num() + 1 == old(pool).num(),
    {
        match self.current_ref {
            Some(current_ref) => {
                let area = PoolReleaseArea { generation: self.generation };
                area.release(pool, current_ref);
            },
            None => {},
        }
    }
}


/// Every handle that names a live actor carries a generation that the pool has
/// already handed out, and the live count is the number of live slots.
pub proof fn law_live_handles_are_issued<T>(p: Pool<T>, h: PoolActorRef)
    requires
        p.wf(),
    ensures
        p.is_valid(h) ==> h.stamp() <= p.current_generation(),
        p.num() == acting_count(p.states()),
        p.num() <= p.len(),
{
    p.lemma_wf_facts();
}

/// No two live actors of a pool share a generation, so a handle's generation alone
/// tells its actor apart from every other live one.
pub proof fn law_live_generations_distinct<T>(p: Pool<T>, h1: PoolActorRef, h2: PoolActorRef)
    requires
        p.wf(),
        p.is_valid(h1),
        p.is_valid(h2),
        h1.slot() != h2.slot(),
    ensures
        h1.stamp() != h2.stamp(),
{
}

/// Acquiring an idle slot under a fresh generation leaves every live handle live and
/// hands out a handle equal to none of them.
pub proof fn law_acquire_keeps_live_handles<T>(
    p: Pool<T>,
    q: Pool<T>,
    r: PoolActorRef,
    h: PoolActorRef,
)
    requires
        p.wf(),
        first_free_after(p.states(), p.cursor(), 1) == Some(r.slot()),
        r.stamp() == p.current_generation() + 1,
        q.states() == p.states().update(r.slot(), Some(r.stamp())),
        q.len() == p.len(),
        p.is_valid(h),
    ensures
        q.is_valid(h),
        h != r,
{
    p.lemma_wf_facts();
    lemma_first_free_some(p.states(), p.cursor(), 1);
}

/// A handle that no longer names a live actor never names one again: acquiring a
/// slot under a fresh generation, or making a slot idle, keeps it stale.
pub proof fn law_stale_handle_stays_stale<T>(
    p: Pool<T>,
    q: Pool<T>,
    h: PoolActorRef,
    slot: int,
    v: Option<usize>,
)
    requires
        p.wf(),
        !p.is_valid(h),
        h.stamp() <= p.current_generation(),
        p.current_generation() < usize::MAX,
        0 <= slot < p.len(),
        v is None || v == Some((p.current_generation() + 1) as usize),
        q.states() == p.states().update(slot, v),
        q.len() == p.len(),
    ensures
        !q.is_valid(h),
{
    p.lemma_wf_facts();
}

/// A walk over a release area visits exactly the actors that were live within its
/// bound, each once and in slot order: each step returns the first slot of the walk
/// still ahead and moves past it; releasing a slot already passed, or acquiring a slot
/// under a generation past the bound, leaves the rest of the walk as it was; and the
/// walk from the start holds every live slot within the bound, in increasing order.
pub proof fn law_area_walk(
    s: Seq<Option<usize>>,
    from: int,
    bound: usize,
    j: int,
    v: Option<usize>,
)
    requires
        0 <= from,
    ensures
        match first_acting_within(s, from, bound) {
            Some(i) => area_walk(s, from, bound) == seq![i] + area_walk(s, i + 1, bound),
            None => area_walk(s, from, bound).len() == 0,
        },
        (0 <= j < from && j < s.len()) ==> area_walk(s.update(j, v), from, bound) == area_walk(
            s,
            from,
            bound,
        ),
        (0 <= j < s.len() && !(s[j] matches Some(g) && g <= bound) && (v matches Some(g) && g
            > bound)) ==> area_walk(s.update(j, v), from, bound) == area_walk(s, from, bound),
        forall|k: int|
            0 <= k < area_walk(s, from, bound).len() ==> from <= #[trigger] area_walk(
                s,
                from,
                bound,
            )[k] < s.len() && (s[area_walk(s, from, bound)[k]] matches Some(g) && g <= bound),
        forall|k1: int, k2: int|
            0 <= k1 < k2 < area_walk(s, from, bound).len() ==> #[trigger] area_walk(
                s,
                from,
                bound,
            )[k1] < #[trigger] area_walk(s, from, bound)[k2],
        forall|i: int|
            from <= i < s.len() && (s[i] matches Some(g) && g <= bound) ==> area_walk(
                s,
                from,
                bound,
            ).contains(i),
    decreases s.len() - from,
{
    if from < s.len() {
        law_area_walk(s, from + 1, bound, j, v);
        let w = area_walk(s, from, bound);
        let rest = area_walk(s, from + 1, bound);
        if s[from] matches Some(g) && g <= bound {
            assert(w == seq![from] + rest);
            assert forall|k: int| 0 <= k < w.len() implies from <= #[trigger] w[k] < s.len()
                && (s[w[k]] matches Some(g) && g <= bound) by {
                if k > 0 {
                    assert(w[k] == rest[k - 1]);
                }
            }
            assert forall|k1: int, k2: int| 0 <= k1 < k2 < w.len() implies #[trigger] w[k1]
                < #[trigger] w[k2] by {
                assert(w[k2] == rest[k2 - 1]);
                if k1 > 0 {
                    assert(w[k1] == rest[k1 - 1]);
                }
            }
            assert forall|i: int| from <= i < s.len() && (s[i] matches Some(g) && g <= bound)
                implies w.contains(i) by {
                if i == from {
                    assert(w[0] == from);
                } else {
                    assert(rest.contains(i));
                    let k = choose|k: int| 0 <= k < rest.len() && rest[k] == i;
                    assert(w[k + 1] == i);
                }
            }
        } else {
            assert(w == rest);
        }
        if 0 <= j < from && j < s.len() {
            let t = s.update(j, v);
            assert(t[from] == s[from]);
            assert(area_walk(t, from + 1, bound) == rest);
            if s[from] matches Some(g) && g <= bound {
                assert(area_walk(t, from, bound) == seq![from] + area_walk(t, from + 1, bound));
            } else {
                assert(area_walk(t, from, bound) == area_walk(t, from + 1, bound));
            }
        }
        if 0 <= j < s.len() && !(s[j] matches Some(g) && g <= bound) && (v matches Some(g) && g
            > bound) {
            let t = s.update(j, v);
            if j != from {
                assert(t[from] == s[from]);
            }
        }
    }
}

/// A walk over a release area never stops on an actor acquired after the area was
/// opened, since such an actor carries a later generation than the area's bound.
pub proof fn law_area_skips_later_actors(s: Seq<Option<usize>>, from: int, bound: usize, slot: int)
    requires
        0 <= slot < s.len(),
        s[slot] matches Some(g) && g > bound,
    ensures
        first_acting_within(s, from, bound) != Some(slot),
    decreases s.len() - from,
{
    if 0 <= from < s.len() && !(s[from] matches Some(g) && g <= bound) {
        law_area_skips_later_actors(s, from + 1, bound, slot);
    }
}

} // verus!
