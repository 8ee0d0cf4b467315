use vstd::prelude::*;
use rle_vec::RleVec;

verus! {

/// Joystick axis deflection beyond which the stick counts as pushed.
pub const JOYSTICK_AXIS: i16 = 16384;

/// The directions held on the pad, as a set of bits.
#[derive(PartialEq, Eq, Clone, Copy, Debug, Structural)]
pub struct PadDirection {
    bits: u8,
}

/// The bit pattern of a set of directions.
pub open spec fn direction_bits(up: bool, down: bool, left: bool, right: bool) -> u8 {
    ((if up { 1int } else { 0int }) + (if down { 2int } else { 0int }) + (if left {
        4int
    } else {
        0int
    }) + (if right { 8int } else { 0int })) as u8
}

impl PadDirection {
    pub fn none() -> (r: PadDirection)
        ensures
            r.value() == 0,
    {
        PadDirection { bits: 0 }
    }

    pub fn up() -> (r: PadDirection)
        ensures
            r.value() == 1,
    {
        PadDirection { bits: 1 }
    }

    pub fn down() -> (r: PadDirection)
        ensures
            r.value() == 2,
    {
        PadDirection { bits: 2 }
    }

    pub fn left() -> (r: PadDirection)
        ensures
            r.value() == 4,
    {
        PadDirection { bits: 4 }
    }

    pub fn right() -> (r: PadDirection)
        ensures
            r.value() == 8,
    {
        PadDirection { bits: 8 }
    }

    pub closed spec fn value(self) -> u8 {
        self.bits
    }

    /// The raw bits.
    pub fn bits(&self) -> (r: u8)
        ensures
            r == self.value(),
    {
        self.bits
    }

    /// The set holding exactly the given directions.
    pub fn from_flags(up: bool, down: bool, left: bool, right: bool) -> (r: PadDirection)
        ensures
            r.value() == direction_bits(up, down, left, right),
    {
        let mut bits: u8 = 0;
        if up {
            bits = bits + 1;
        }
        if down {
            bits = bits + 2;
        }
        if left {
            bits = bits + 4;
        }
        if right {
            bits = bits + 8;
        }
        PadDirection { bits }
    }

    /// Both sets together.
    pub fn union(self, other: PadDirection) -> (r: PadDirection)
        ensures
            r.value() == self.value() | other.value(),
    {
        PadDirection { bits: self.bits | other.bits }
    }

    /// Whether the two sets share a direction.
    pub fn intersects(self, other: PadDirection) -> (r: bool)
        ensures
            r == (self.value() & other.value() != 0),
    {
        self.bits & other.bits != 0
    }

    /// Whether no direction is held.
    pub fn is_empty(self) -> (r: bool)
        ensures
            r == (self.value() == 0),
    {
        self.bits == 0
    }
}

/// The buttons held on the pad, as a set of bits.
#[derive(PartialEq, Eq, Clone, Copy, Debug, Structural)]
pub struct PadButtons {
    bits: u8,
}

/// The bit pattern of a set of buttons.
pub open spec fn button_bits(a: bool, b: bool) -> u8 {
    ((if a { 1int } else { 0int }) + (if b { 2int } else { 0int })) as u8
}

impl PadButtons {
    pub fn none() -> (r: PadButtons)
        ensures
            r.value() == 0,
    {
        PadButtons { bits: 0 }
    }

    pub fn a() -> (r: PadButtons)
        ensures
            r.value() == 1,
    {
        PadButtons { bits: 1 }
    }

    pub fn b() -> (r: PadButtons)
        ensures
            r.value() == 2,
    {
        PadButtons { bits: 2 }
    }

    pub fn any() -> (r: PadButtons)
        ensures
            r.value() == 3,
    {
        PadButtons { bits: 3 }
    }

    pub closed spec fn value(self) -> u8 {
        self.bits
    }

    /// The raw bits.
    pub fn bits(&self) -> (r: u8)
        ensures
            r == self.value(),
    {
        self.bits
    }

    /// The set holding exactly the given buttons.
    pub fn from_flags(a: bool, b: bool) -> (r: PadButtons)
        ensures
            r.value() == button_bits(a, b),
    {
        let mut bits: u8 = 0;
        if a {
            bits = bits + 1;
        }
        if b {
            bits = bits + 2;
        }
        PadButtons { bits }
    }

    /// Both sets together.
    pub fn union(self, other: PadButtons) -> (r: PadButtons)
        ensures
            r.value() == self.value() | other.value(),
    {
        PadButtons { bits: self.bits | other.bits }
    }

    /// Whether the two sets share a button.
    pub fn intersects(self, other: PadButtons) -> (r: bool)
        ensures
            r == (self.value() & other.value() != 0),
    {
        self.bits & other.bits != 0
    }
}

/// What the pad reports at one frame.
#[derive(PartialEq, Eq, Clone, Copy, Debug, Structural)]
pub struct PadState {
    pub direction: PadDirection,
    pub buttons: PadButtons,
}

/// The keyboard keys the pad reads; any other key is carried by its code.
#[derive(PartialEq, Eq, Clone, Copy, Debug, Structural)]
pub enum Key {
    Up,
    Down,
    Left,
    Right,
    NumPad2,
    NumPad4,
    NumPad6,
    NumPad8,
    A,
    D,
    S,
    Z,
    X,
    Period,
    Slash,
    LCtrl,
    LAlt,
    LShift,
    P,
    Escape,
    Other(u32),
}

/// What a joystick reports at one frame: its two axes and its first eight buttons.
#[derive(Clone, Copy, Debug)]
pub struct JoystickInput {
    pub axis_x: i16,
    pub axis_y: i16,
    pub buttons: [bool; 8],
}

/// The directions that a set of held keys gives. (The up direction reads the D key,
/// as the game always has.)
pub open spec fn keys_direction(k: Set<Key>) -> u8 {
    direction_bits(
        k.contains(Key::Up) || k.contains(Key::NumPad8) || k.contains(Key::D),
        k.contains(Key::Down) || k.contains(Key::NumPad2) || k.contains(Key::S),
        k.contains(Key::Left) || k.contains(Key::NumPad4) || k.contains(Key::A),
        k.contains(Key::Right) || k.contains(Key::NumPad6) || k.contains(Key::D),
    )
}

/// Whether the keys of the first (shot) button are held.
pub open spec fn keys_first_button(k: Set<Key>) -> bool {
    k.contains(Key::Z) || k.contains(Key::Period) || k.contains(Key::LCtrl)
}

/// Whether the keys of the second (charge) button are held.
pub open spec fn keys_second_button(k: Set<Key>) -> bool {
    k.contains(Key::X) || k.contains(Key::Slash) || k.contains(Key::LAlt) || k.contains(
        Key::LShift,
    )
}

/// The buttons that the first and second button give, swapped when `reversed`.
pub open spec fn assigned_buttons(first: bool, second: bool, reversed: bool) -> u8 {
    if reversed {
        button_bits(second, first)
    } else {
        button_bits(first, second)
    }
}

/// The directions that a joystick's axes add.
pub open spec fn joystick_direction_bits(j: JoystickInput) -> u8 {
    direction_bits(
        j.axis_y < -JOYSTICK_AXIS,
        j.axis_y > JOYSTICK_AXIS,
        j.axis_x < -JOYSTICK_AXIS,
        j.axis_x > JOYSTICK_AXIS,
    )
}

/// Whether a joystick holds its first button (buttons 0, 3, 4 or 7).
pub open spec fn joystick_first_button(j: JoystickInput) -> bool {
    j.buttons[0] || j.buttons[3] || j.buttons[4] || j.buttons[7]
}

/// Whether a joystick holds its second button (buttons 1, 2, 5 or 6).
pub open spec fn joystick_second_button(j: JoystickInput) -> bool {
    j.buttons[1] || j.buttons[2] || j.buttons[5] || j.buttons[6]
}

/// Each of the four direction flags sets its own bit, and only that bit.
proof fn lemma_direction_bits(up: bool, down: bool, left: bool, right: bool)
    ensures
        (direction_bits(up, down, left, right) & 1u8 != 0) == up,
        (direction_bits(up, down, left, right) & 2u8 != 0) == down,
        (direction_bits(up, down, left, right) & 4u8 != 0) == left,
        (direction_bits(up, down, left, right) & 8u8 != 0) == right,
{
    let a: u8 = if up { 1 } else { 0 };
    let b: u8 = if down { 2 } else { 0 };
    let c: u8 = if left { 4 } else { 0 };
    let d: u8 = if right { 8 } else { 0 };
    let v = direction_bits(up, down, left, right);
    assert(v == a + b + c + d);
    assert((v & 1u8 != 0) == (a == 1) && (v & 2u8 != 0) == (b == 2) && (v & 4u8 != 0) == (c
        == 4) && (v & 8u8 != 0) == (d == 8)) by (bit_vector)
        requires
            a == 0 || a == 1,
            b == 0 || b == 2,
            c == 0 || c == 4,
            d == 0 || d == 8,
            v == a + b + c + d,
    ;
}

/// A joystick's direction follows its two axes, each alone: up (1) exactly when the
/// vertical axis lies below -16384, down (2) exactly when it lies above 16384, left
/// (4) exactly when the horizontal axis lies below -16384, and right (8) exactly when
/// it lies above 16384.
pub proof fn law_joystick_axes(j: JoystickInput)
    ensures
        (joystick_direction_bits(j) & 1u8 != 0) == (j.axis_y < -16384),
        (joystick_direction_bits(j) & 2u8 != 0) == (j.axis_y > 16384),
        (joystick_direction_bits(j) & 4u8 != 0) == (j.axis_x < -16384),
        (joystick_direction_bits(j) & 8u8 != 0) == (j.axis_x > 16384),
{
    lemma_direction_bits(
        j.axis_y < -JOYSTICK_AXIS,
        j.axis_y > JOYSTICK_AXIS,
        j.axis_x < -JOYSTICK_AXIS,
        j.axis_x > JOYSTICK_AXIS,
    );
}

/// The keyboard's direction: up while Up, keypad 8 or D is held; down while Down,
/// keypad 2 or S is held; left while Left, keypad 4 or A is held; right while Right,
/// keypad 6 or D is held.
pub proof fn law_keys_directions(k: Set<Key>)
    ensures
        (keys_direction(k) & 1u8 != 0) == (k.contains(Key::Up) || k.contains(Key::NumPad8)
            || k.contains(Key::D)),
        (keys_direction(k) & 2u8 != 0) == (k.contains(Key::Down) || k.contains(Key::NumPad2)
            || k.contains(Key::S)),
        (keys_direction(k) & 4u8 != 0) == (k.contains(Key::Left) || k.contains(Key::NumPad4)
            || k.contains(Key::A)),
        (keys_direction(k) & 8u8 != 0) == (k.contains(Key::Right) || k.contains(Key::NumPad6)
            || k.contains(Key::D)),
{
    lemma_direction_bits(
        k.contains(Key::Up) || k.contains(Key::NumPad8) || k.contains(Key::D),
        k.contains(Key::Down) || k.contains(Key::NumPad2) || k.contains(Key::S),
        k.contains(Key::Left) || k.contains(Key::NumPad4) || k.contains(Key::A),
        k.contains(Key::Right) || k.contains(Key::NumPad6) || k.contains(Key::D),
    );
}

// ---------------------------------------------------------------------------
// The recording: a run-length encoded sequence of pad states.

#[verifier::external_type_specification]
#[verifier::external_body]
#[verifier::reject_recursive_types(T)]
pub struct ExRleVec<T>(RleVec<T>);

/// The runs of a pad recording, in order: each a state and how many frames it lasted.
pub uninterp spec fn record_runs(record: RleVec<PadState>) -> Seq<(PadState, nat)>;

/// The runs after one more frame holding `v`: the last run grows when it holds the
/// same state, otherwise a run of one frame is added.
pub open spec fn runs_pushed(runs: Seq<(PadState, nat)>, v: PadState) -> Seq<(PadState, nat)> {
    if runs.len() > 0 && runs.last().0 == v {
        runs.update(runs.len() - 1, (v, runs.last().1 + 1))
    } else {
        runs.push((v, 1nat))
    }
}

/// The number of frames that the runs hold.
pub open spec fn runs_total(runs: Seq<(PadState, nat)>) -> nat
    decreases runs.len(),
{
    if runs.len() == 0 {
        0
    } else {
        runs_total(runs.drop_last()) + runs.last().1
    }
}

/// The frames that the runs hold, one state per frame.
pub open spec fn runs_frames(runs: Seq<(PadState, nat)>) -> Seq<PadState>
    decreases runs.len(),
{
    if runs.len() == 0 {
        Seq::empty()
    } else {
        runs_frames(runs.drop_last()) + Seq::new(runs.last().1, |i: int| runs.last().0)
    }
}

/// Every run lasts at least one frame.
pub open spec fn runs_nonempty(runs: Seq<(PadState, nat)>) -> bool {
    forall|i: int| 0 <= i < runs.len() ==> #[trigger] runs[i].1 >= 1
}

/// A new, empty recording (`RleVec::new`).
#[verifier::external_body]
fn record_new() -> (r: RleVec<PadState>)
    ensures
        record_runs(r) == Seq::<(PadState, nat)>::empty(),
{
    RleVec::new()
}

/// Appends one frame to a recording (`RleVec::push`): the last run grows by one when
/// its state equals `v`, otherwise a run of length one is added. The crate panics
/// when the frame count would overflow a `usize`, so that input is excluded.
#[verifier::external_body]
fn record_push(record: &mut RleVec<PadState>, v: PadState)
    requires
        runs_total(record_runs(*old(record))) < usize::MAX,
    ensures
        record_runs(*final(record)) == runs_pushed(record_runs(*old(record)), v),
{
    record.push(v)
}

/// The number of frames in a recording (`RleVec::len`: one past the end of the last
/// run, that is, the run lengths summed). The crate adds one to the last run's end,
/// which overflows when the frames do not fit a `usize`, so that input is excluded.
#[verifier::external_body]
fn record_len(record: &RleVec<PadState>) -> (r: usize)
    requires
        runs_total(record_runs(*record)) <= usize::MAX,
    ensures
        r == runs_total(record_runs(*record)),
{
    record.len()
}

/// Empties a recording (`RleVec::clear`).
#[verifier::external_body]
fn record_clear(record: &mut RleVec<PadState>)
    ensures
        record_runs(*final(record)) == Seq::<(PadState, nat)>::empty(),
{
    record.clear()
}

/// The `n`-th run of a recording (`RleVec::runs` then `Iterator::nth`): its state and
/// its length, or `None` past the last run. The crate computes run ends plus one,
/// which overflows when the frames do not fit a `usize`, so that input is excluded.
#[verifier::external_body]
fn record_run(record: &RleVec<PadState>, n: usize) -> (r: Option<(PadState, usize)>)
    requires
        runs_total(record_runs(*record)) <= usize::MAX,
    ensures
        match r {
            Some((v, len)) => n < record_runs(*record).len() <= usize::MAX && v == record_runs(*record)[n as int].0
                && len == record_runs(*record)[n as int].1,
            None => n >= record_runs(*record).len(),
        },
{
    match record.runs().nth(n) {
        Some(run) => Some((*run.value, run.len)),
        None => None,
    }
}

/// Recording a frame appends exactly that state to the recorded frames, one frame
/// longer, and keeps every run at least one frame long.
pub proof fn law_record_appends_frame(runs: Seq<(PadState, nat)>, v: PadState)
    ensures
        runs_frames(runs_pushed(runs, v)) == runs_frames(runs).push(v),
        runs_total(runs_pushed(runs, v)) == runs_total(runs) + 1,
        runs_nonempty(runs) ==> runs_nonempty(runs_pushed(runs, v)),
{
    let p = runs_pushed(runs, v);
    if runs.len() > 0 && runs.last().0 == v {
        assert(p.drop_last() =~= runs.drop_last());
        let n = runs.last().1;
        assert(Seq::new(n + 1, |i: int| v) =~= Seq::new(n, |i: int| v).push(v));
        assert(runs_frames(p) =~= runs_frames(runs).push(v));
    } else {
        assert(p.drop_last() =~= runs);
        assert(runs_frames(p) =~= runs_frames(runs).push(v));
    }
}

/// The runs that recording the frames `vs` one by one into an empty recording gives.
pub open spec fn runs_of(vs: Seq<PadState>) -> Seq<(PadState, nat)>
    decreases vs.len(),
{
    if vs.len() == 0 {
        Seq::empty()
    } else {
        runs_pushed(runs_of(vs.drop_last()), vs.last())
    }
}

/// A recording made frame by frame from empty holds exactly those frames, in order,
/// with every run at least one frame long; a replay of it, which starts at its first
/// frame and steps one frame per call, therefore gives back every recorded frame in
/// order and then nothing.
pub proof fn law_recording_holds_every_frame(vs: Seq<PadState>)
    ensures
        runs_frames(runs_of(vs)) == vs,
        runs_total(runs_of(vs)) == vs.len(),
        runs_nonempty(runs_of(vs)),
    decreases vs.len(),
{
    if vs.len() > 0 {
        law_recording_holds_every_frame(vs.drop_last());
        law_record_appends_frame(runs_of(vs.drop_last()), vs.last());
        assert(vs.drop_last().push(vs.last()) =~= vs);
    } else {
        assert(runs_frames(Seq::<(PadState, nat)>::empty()) =~= vs);
    }
}

proof fn lemma_runs_frames_len(runs: Seq<(PadState, nat)>)
    ensures
        runs_frames(runs).len() == runs_total(runs),
    decreases runs.len(),
{
    if runs.len() > 0 {
        lemma_runs_frames_len(runs.drop_last());
    }
}

proof fn lemma_runs_total_prefix(runs: Seq<(PadState, nat)>, i: int)
    requires
        0 <= i < runs.len(),
    ensures
        runs_total(runs.take(i + 1)) == runs_total(runs.take(i)) + runs[i].1,
        runs_total(runs.take(i + 1)) <= runs_total(runs),
    decreases runs.len(),
{
    assert(runs.take(i + 1).drop_last() =~= runs.take(i));
    if i + 1 < runs.len() {
        lemma_runs_total_prefix(runs.drop_last(), i);
        assert(runs.drop_last().take(i + 1) =~= runs.take(i + 1));
        assert(runs.drop_last().take(i) =~= runs.take(i));
    } else {
        assert(runs.take(i + 1) =~= runs);
    }
}

/// Replay reads back the recorded frames: the frame at position
/// `runs_total(take(ri)) + si`, within run `ri`, is that run's state.
pub proof fn law_replay_reads_recorded_frame(runs: Seq<(PadState, nat)>, ri: int, si: int)
    requires
        0 <= ri < runs.len(),
        0 <= si < runs[ri].1,
    ensures
        runs_total(runs.take(ri)) + si < runs_total(runs),
        runs_frames(runs)[runs_total(runs.take(ri)) + si] == runs[ri].0,
    decreases runs.len(),
{
    lemma_runs_total_prefix(runs, ri);
    lemma_runs_frames_len(runs.drop_last());
    let last = runs.len() - 1;
    if ri < last {
        law_replay_reads_recorded_frame(runs.drop_last(), ri, si);
        assert(runs.drop_last().take(ri) =~= runs.take(ri));
    } else {
        assert(runs.take(ri) =~= runs.drop_last());
    }
}

proof fn lemma_runs_total_take_full(runs: Seq<(PadState, nat)>)
    ensures
        runs_total(runs.take(runs.len() as int)) == runs_total(runs),
{
    assert(runs.take(runs.len() as int) =~= runs);
}

/// The pad: keyboard keys held, the state they give, and the recording or replay of
/// pad states.
pub struct GamePad {
    button_reversed: bool,
    keys: Vec<Key>,
    state: PadState,
    record: RleVec<PadState>,
    record_run_index: usize,
    record_run_sub_index: usize,
}

impl GamePad {
    /// The keys held now.
    pub closed spec fn held(&self) -> Set<Key> {
        self.keys@.to_set()
    }

    pub closed spec fn reversed(&self) -> bool {
        self.button_reversed
    }

    /// The state that the keyboard alone gives.
    pub closed spec fn key_state(&self) -> PadState {
        self.state
    }

    pub closed spec fn runs(&self) -> Seq<(PadState, nat)> {
        record_runs(self.record)
    }

    /// The run that replay stands in, and the frame within it.
    pub closed spec fn replay_run(&self) -> int {
        self.record_run_index as int
    }

    pub closed spec fn replay_frame(&self) -> int {
        self.record_run_sub_index as int
    }

    /// The number of frames replayed so far.
    pub open spec fn replay_position(&self) -> int {
        runs_total(self.runs().take(self.replay_run())) + self.replay_frame()
    }

    /// Replay stands at a frame of the recording, or just past its end.
    pub open spec fn replay_wf(&self) -> bool {
        &&& runs_nonempty(self.runs())
        &&& 0 <= self.replay_run() <= self.runs().len()
        &&& self.replay_run() < self.runs().len() ==> 0 <= self.replay_frame()
            < self.runs()[self.replay_run()].1
        &&& self.replay_run() == self.runs().len() ==> self.replay_frame() == 0
    }

    /// No key is listed twice, and the state matches the keys held.
    pub closed spec fn wf(&self) -> bool {
        &&& self.keys@.no_duplicates()
        &&& runs_total(self.runs()) <= usize::MAX
        &&& self.state.direction.value() == keys_direction(self.held())
        &&& self.state.buttons.value() == assigned_buttons(
            keys_first_button(self.held()),
            keys_second_button(self.held()),
            self.button_reversed,
        )
    }

    /// A pad with no key held and an empty recording.
    pub fn new(button_reversed: bool) -> (pad: GamePad)
        ensures
            pad.wf(),
            pad.held() == Set::<Key>::empty(),
            pad.reversed() == button_reversed,
            pad.key_state().direction.value() == 0,
            pad.key_state().buttons.value() == 0,
            pad.runs() == Seq::<(PadState, nat)>::empty(),
            pad.replay_run() == 0,
            pad.replay_frame() == 0,
    {
        let pad = GamePad {
            button_reversed,
            keys: Vec::new(),
            state: PadState { direction: PadDirection::none(), buttons: PadButtons::none() },
            record: record_new(),
            record_run_index: 0,
            record_run_sub_index: 0,
        };
        proof {
            assert(pad.held() =~= Set::<Key>::empty());
        }
        pad
    }

    fn holds(&self, key: Key) -> (r: bool)
        ensures
            r == self.held().contains(key),
    {
        let mut i: usize = 0;
        while i < self.keys.len()
            invariant
                i <= self.keys@.len(),
                forall|j: int| 0 <= j < i ==> self.keys@[j] != key,
            decreases self.keys@.len() - i,
        {
            if self.keys[i] == key {
                assert(self.keys@.contains(key));
                return true;
            }
            i = i + 1;
        }
        assert(!self.keys@.contains(key));
        false
    }

    /// The directions the held keys give.
    pub fn calc_direction(&self) -> (r: PadDirection)
        ensures
            r.value() == keys_direction(self.held()),
    {
        let up = self.holds(Key::Up) || self.holds(Key::NumPad8) || self.holds(Key::D);
        let down = self.holds(Key::Down) || self.holds(Key::NumPad2) || self.holds(Key::S);
        let left = self.holds(Key::Left) || self.holds(Key::NumPad4) || self.holds(Key::A);
        let right = self.holds(Key::Right) || self.holds(Key::NumPad6) || self.holds(Key::D);
        PadDirection::from_flags(up, down, left, right)
    }

    /// The buttons the held keys give.
    pub fn calc_buttons(&self) -> (r: PadButtons)
        ensures
            r.value() == assigned_buttons(
                keys_first_button(self.held()),
                keys_second_button(self.held()),
                self.reversed(),
            ),
    {
        let first = self.holds(Key::Z) || self.holds(Key::Period) || self.holds(Key::LCtrl);
        let second = self.holds(Key::X) || self.holds(Key::Slash) || self.holds(Key::LAlt)
            || self.holds(Key::LShift);
        if self.button_reversed {
            PadButtons::from_flags(second, first)
        } else {
            PadButtons::from_flags(first, second)
        }
    }

    /// A key went down (`pressed`) or up.
    pub fn handle_key_event(&mut self, key: Key, pressed: bool)
        requires
            old(self).wf(),
        ensures
            final(self).wf(),
            final(self).held() == (if pressed {
                old(self).held().insert(key)
            } else {
                old(self).held().remove(key)
            }),
            final(self).reversed() == old(self).reversed(),
            final(self).runs() == old(self).runs(),
            final(self).replay_run() == old(self).replay_run(),
            final(self).replay_frame() == old(self).replay_frame(),
    {
        let ghost old_keys = self.keys@;
        let present = self.holds(key);
        if pressed {
            if !present {
                self.keys.push(key);
                proof {
                    assert(self.keys@ =~= old_keys.push(key));
                    old_keys.lemma_push_to_set_commute(key);
                    assert(self.keys@.no_duplicates()) by {
                        assert forall|i: int, j: int|
                            0 <= i < j < self.keys@.len() implies self.keys@[i] != self.keys@[j] by {
                            if j == old_keys.len() {
                                assert(old_keys.contains(old_keys[i]));
                            }
                        }
                    }
                }
            } else {
                proof {
                    assert(old_keys.to_set() =~= old_keys.to_set().insert(key));
                }
            }
        } else {
            let mut i: usize = 0;
            let mut found = false;
            while i < self.keys.len()
                invariant_except_break
                    i <= self.keys@.len(),
                    self.keys@ == old_keys,
                    forall|j: int| 0 <= j < i ==> self.keys@[j] != key,
                    !found,
                ensures
                    self.keys@ == old_keys,
                    found ==> i < self.keys@.len() && self.keys@[i as int] == key,
                    !found ==> !old_keys.contains(key),
                decreases self.keys@.len() - i,
            {
                if self.keys[i] == key {
                    found = true;
                    break;
                }
                i = i + 1;
            }
            if found {
                self.keys.remove(i);
                proof {
                    assert(self.keys@ =~= old_keys.remove(i as int));
                    assert(self.keys@.to_set() =~= old_keys.to_set().remove(key)) by {
                        assert forall|k: Key| #[trigger] self.keys@.to_set().contains(k) <==> old_keys.to_set().remove(key).contains(k) by {
                            if self.keys@.contains(k) {
                                let m = choose|m: int| 0 <= m < self.keys@.len() && self.keys@[m] == k;
                                if m < i {
                                    assert(old_keys[m] == k);
                                } else {
                                    assert(old_keys[m + 1] == k);
                                }
                                assert(old_keys.contains(k));
                            }
                            if old_keys.contains(k) && k != key {
                                let m = choose|m: int| 0 <= m < old_keys.len() && old_keys[m] == k;
                                if m < i {
                                    assert(self.keys@[m] == k);
                                } else {
                                    assert(m != i);
                                    assert(self.keys@[m - 1] == k);
                                }
                                assert(self.keys@.contains(k));
                            }
                        }
                    }
                }
            } else {
                proof {
                    assert(old_keys.to_set() =~= old_keys.to_set().remove(key));
                }
            }
        }
        let direction = self.calc_direction();
        let buttons = self.calc_buttons();
        self.state = PadState { direction, buttons };
    }

    /// Losing the window's focus releases every key.
    pub fn handle_focus_event(&mut self, focus: bool)
        requires
            old(self).wf(),
        ensures
            final(self).wf(),
            final(self).held() == (if focus {
                old(self).held()
            } else {
                Set::<Key>::empty()
            }),
            final(self).reversed() == old(self).reversed(),
            final(self).runs() == old(self).runs(),
            final(self).replay_run() == old(self).replay_run(),
            final(self).replay_frame() == old(self).replay_frame(),
    {
        if !focus {
            self.keys.clear();
            proof {
                assert(self.keys@.to_set() =~= Set::<Key>::empty());
            }
            let direction = self.calc_direction();
            let buttons = self.calc_buttons();
            self.state = PadState { direction, buttons };
        }
    }

    /// The directions of the pad: the keyboard's, together with the joystick's.
    pub open spec fn state_direction(&self, joystick: Option<JoystickInput>) -> u8 {
        match joystick {
            Some(j) => keys_direction(self.held()) | joystick_direction_bits(j),
            None => keys_direction(self.held()),
        }
    }

    /// The buttons of the pad: the keyboard's, together with the joystick's.
    pub open spec fn state_buttons(&self, joystick: Option<JoystickInput>) -> u8 {
        let keys = assigned_buttons(
            keys_first_button(self.held()),
            keys_second_button(self.held()),
            self.reversed(),
        );
        match joystick {
            Some(j) => keys | assigned_buttons(
                joystick_first_button(j),
                joystick_second_button(j),
                self.reversed(),
            ),
            None => keys,
        }
    }

    /// The state of the pad: the keyboard's directions and buttons, together with
    /// those of the joystick when there is one.
    pub fn get_state(&self, joystick: Option<JoystickInput>) -> (r: PadState)
        requires
            self.wf(),
        ensures
            r.direction.value() == self.state_direction(joystick),
            r.buttons.value() == self.state_buttons(joystick),
    {
        match joystick {
            Some(j) => {
                let x = j.axis_x;
                let y = j.axis_y;
                let stick = PadDirection::from_flags(
                    y < -JOYSTICK_AXIS,
                    y > JOYSTICK_AXIS,
                    x < -JOYSTICK_AXIS,
                    x > JOYSTICK_AXIS,
                );
                let first = j.buttons[0] || j.buttons[3] || j.buttons[4] || j.buttons[7];
                let second = j.buttons[1] || j.buttons[2] || j.buttons[5] || j.buttons[6];
                let pressed = if self.button_reversed {
                    PadButtons::from_flags(second, first)
                } else {
                    PadButtons::from_flags(first, second)
                };
                PadState {
                    direction: self.state.direction.union(stick),
                    buttons: self.state.buttons.union(pressed),
                }
            },
            None => self.state,
        }
    }

    /// Starts a new recording.
    pub fn start_record(&mut self)
        requires
            old(self).wf(),
        ensures
            final(self).wf(),
            final(self).held() == old(self).held(),
            final(self).reversed() == old(self).reversed(),
            final(self).runs() == Seq::<(PadState, nat)>::empty(),
            final(self).replay_run() == 0,
            final(self).replay_frame() == 0,
            final(self).replay_wf(),
    {
        record_clear(&mut self.record);
        self.record_run_index = 0;
        self.record_run_sub_index = 0;
    }

    /// Starts replaying `record` from its first frame.
    pub fn start_replay(&mut self, record: RleVec<PadState>)
        requires
            old(self).wf(),
            runs_total(record_runs(record)) <= usize::MAX,
        ensures
            final(self).wf(),
            final(self).held() == old(self).held(),
            final(self).reversed() == old(self).reversed(),
            final(self).runs() == record_runs(record),
            final(self).replay_run() == 0,
            final(self).replay_frame() == 0,
            final(self).replay_position() == 0,
            runs_nonempty(record_runs(record)) ==> final(self).replay_wf(),
    {
        self.record = record;
        self.record_run_index = 0;
        self.record_run_sub_index = 0;
        proof {
            assert(self.runs().take(0) =~= Seq::<(PadState, nat)>::empty());
        }
    }

    /// The number of frames recorded so far.
    pub fn recorded_frames(&self) -> (r: usize)
        requires
            self.wf(),
        ensures
            r == runs_total(self.runs()),
    {
        record_len(&self.record)
    }

    /// Reads the pad and appends its state to the recording.
    pub fn record_state(&mut self, joystick: Option<JoystickInput>) -> (r: PadState)
        requires
            old(self).wf(),
            runs_total(old(self).runs()) < usize::MAX,
        ensures
            final(self).wf(),
            r.direction.value() == old(self).state_direction(joystick),
            r.buttons.value() == old(self).state_buttons(joystick),
            final(self).held() == old(self).held(),
            final(self).reversed() == old(self).reversed(),
            final(self).runs() == runs_pushed(old(self).runs(), r),
            runs_frames(final(self).runs()) == runs_frames(old(self).runs()).push(r),
            runs_nonempty(old(self).runs()) ==> runs_nonempty(final(self).runs()),
            final(self).replay_run() == old(self).replay_run(),
            final(self).replay_frame() == old(self).replay_frame(),
    {
        let state = self.get_state(joystick);
        record_push(&mut self.record, state);
        proof {
            law_record_appends_frame(old(self).runs(), state);
        }
        state
    }

    /// The next frame of the replay, or `None` once the recording is exhausted.
    pub fn replay_state(&mut self) -> (r: Option<PadState>)
        requires
            old(self).wf(),
        ensures
            final(self).wf(),
            final(self).held() == old(self).held(),
            final(self).reversed() == old(self).reversed(),
            final(self).runs() == old(self).runs(),
            match r {
                Some(v) => {
                    &&& old(self).replay_run() < old(self).runs().len()
                    &&& v == old(self).runs()[old(self).replay_run()].0
                    &&& if old(self).replay_frame() + 1 < old(self).runs()[old(self).replay_run()].1 {
                        final(self).replay_run() == old(self).replay_run() && final(self).replay_frame()
                            == old(self).replay_frame() + 1
                    } else {
                        final(self).replay_run() == old(self).replay_run() + 1
                            && final(self).replay_frame() == 0
                    }
                },
                None => {
                    &&& old(self).replay_run() >= old(self).runs().len()
                    &&& final(self).replay_run() == old(self).replay_run()
                    &&& final(self).replay_frame() == old(self).replay_frame()
                },
            },
            old(self).replay_wf() ==> {
                &&& final(self).replay_wf()
                &&& r is None <==> old(self).replay_position() == runs_total(old(self).runs())
                &&& r matches Some(v) ==> v == runs_frames(old(self).runs())[old(self).replay_position()]
                    && final(self).replay_position() == old(self).replay_position() + 1
            },
    {
        let sub_index = self.record_run_sub_index;
        let run = record_run(&self.record, self.record_run_index);
        proof {
            if old(self).replay_wf() {
                let runs = self.runs();
                let ri = self.replay_run();
                if ri < runs.len() {
                    law_replay_reads_recorded_frame(runs, ri, self.replay_frame());
                    lemma_runs_total_prefix(runs, ri);
                    assert(runs.take(ri + 1).drop_last() =~= runs.take(ri));
                } else {
                    lemma_runs_total_take_full(runs);
                }
            }
        }
        match run {
            Some((state, len)) => {
                if sub_index < len && sub_index + 1 < len {
                    self.record_run_sub_index = sub_index + 1;
                } else {
                    self.record_run_index = self.record_run_index + 1;
                    self.record_run_sub_index = 0;
                }
                Some(state)
            },
            None => None,
        }
    }

    /// Whether the pause key is held.
    pub fn pause_pressed(&self) -> (r: bool)
        ensures
            r == self.held().contains(Key::P),
    {
        self.holds(Key::P)
    }

    /// Whether the escape key is held.
    pub fn esc_pressed(&self) -> (r: bool)
        ensures
            r == self.held().contains(Key::Escape),
    {
        self.holds(Key::Escape)
    }

    /// Hands the recording over, leaving an empty one.
    pub fn get_record(&mut self) -> (r: RleVec<PadState>)
        requires
            old(self).wf(),
        ensures
            final(self).wf(),
            record_runs(r) == old(self).runs(),
            final(self).runs() == Seq::<(PadState, nat)>::empty(),
            final(self).held() == old(self).held(),
            final(self).reversed() == old(self).reversed(),
            final(self).replay_run() == old(self).replay_run(),
            final(self).replay_frame() == old(self).replay_frame(),
    {
        let mut r = record_new();
        std::mem::swap(&mut r, &mut self.record);
        r
    }
}

/// What `get_state` reports with a joystick: each direction is held when the keyboard
/// holds it or the joystick's axis is pushed past 16384 that way (left and down
/// included: left from the horizontal axis below -16384, down from the vertical axis
/// above 16384).
pub proof fn law_pad_state_direction(p: GamePad, j: JoystickInput)
    ensures
        (p.state_direction(Some(j)) & 1u8 != 0) == ((keys_direction(p.held()) & 1u8 != 0)
            || j.axis_y < -16384),
        (p.state_direction(Some(j)) & 2u8 != 0) == ((keys_direction(p.held()) & 2u8 != 0)
            || j.axis_y > 16384),
        (p.state_direction(Some(j)) & 4u8 != 0) == ((keys_direction(p.held()) & 4u8 != 0)
            || j.axis_x < -16384),
        (p.state_direction(Some(j)) & 8u8 != 0) == ((keys_direction(p.held()) & 8u8 != 0)
            || j.axis_x > 16384),
        p.state_direction(None) == keys_direction(p.held()),
{
    law_joystick_axes(j);
    let x = keys_direction(p.held());
    let y = joystick_direction_bits(j);
    assert(((x | y) & 1u8 != 0) == ((x & 1u8 != 0) || (y & 1u8 != 0)) && ((x | y) & 2u8 != 0)
        == ((x & 2u8 != 0) || (y & 2u8 != 0)) && ((x | y) & 4u8 != 0) == ((x & 4u8 != 0) || (y
        & 4u8 != 0)) && ((x | y) & 8u8 != 0) == ((x & 8u8 != 0) || (y & 8u8 != 0)))
        by (bit_vector);
}

} // verus!
