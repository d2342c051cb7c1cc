//! Bit-packed per-tick button state.
//!
//! Each of the five buttons occupies two bits of a `u16`, at a fixed shift of
//! twice the button's index. The two bits hold one of four edge states
//! (`ButtonDiff`), so every button is in exactly one edge state at all times.
//! `CombinedInput` packs the raw "is the button physically down this tick"
//! reading; `InputDiff` packs the edge state derived from the previous tick's
//! diff plus this tick's raw reading, and is the value persisted between
//! ticks and stored in rollback buffers.

use vstd::prelude::*;

verus! {

/// One of the five buttons the simulation reads.
#[derive(Clone, Copy, Debug, PartialEq, Eq, Structural)]
pub enum DiscreteInput {
    Jump,
    Hit,
    Left,
    Right,
    Down,
}

/// The edge state of one button on one tick.
#[derive(Clone, Copy, Debug, PartialEq, Eq, Structural)]
pub enum ButtonDiff {
    NotHeld,
    Held,
    Released,
    Pressed,
}

/// Whether a button is physically down this tick.
#[derive(Clone, Copy, Debug, PartialEq, Eq, Structural)]
pub enum InputState {
    Activated,
    NotActivated,
}

impl DiscreteInput {
    /// The button's fixed position among the packed two-bit pairs.
    pub open spec fn index_spec(self) -> u16 {
        match self {
            DiscreteInput::Jump => 0,
            DiscreteInput::Hit => 1,
            DiscreteInput::Left => 2,
            DiscreteInput::Right => 3,
            DiscreteInput::Down => 4,
        }
    }
}

/// How far the button's two-bit pair is shifted into the packed word.
pub open spec fn get_shift_spec(button: DiscreteInput) -> u16 {
    (2 * button.index_spec()) as u16
}

fn get_shift(button: DiscreteInput) -> (r: u16)
    ensures
        r == get_shift_spec(button),
{
    match button {
        DiscreteInput::Jump => 0,
        DiscreteInput::Hit => 2,
        DiscreteInput::Left => 4,
        DiscreteInput::Right => 6,
        DiscreteInput::Down => 8,
    }
}

impl ButtonDiff {
    /// The two-bit code that stands for this edge state in the packed word.
    pub open spec fn code_spec(self) -> u16 {
        match self {
            ButtonDiff::NotHeld => 0,
            ButtonDiff::Held => 1,
            ButtonDiff::Released => 2,
            ButtonDiff::Pressed => 3,
        }
    }

    /// Whether this edge state means the button is down.
    pub open spec fn is_down_spec(self) -> bool {
        self == ButtonDiff::Held || self == ButtonDiff::Pressed
    }

    fn code(self) -> (r: u16)
        ensures
            r == self.code_spec(),
    {
        match self {
            ButtonDiff::NotHeld => 0,
            ButtonDiff::Held => 1,
            ButtonDiff::Released => 2,
            ButtonDiff::Pressed => 3,
        }
    }
}

/// The edge state encoded by a two-bit code.
pub open spec fn diff_of_code(code: u16) -> ButtonDiff {
    if code == 0 {
        ButtonDiff::NotHeld
    } else if code == 1 {
        ButtonDiff::Held
    } else if code == 2 {
        ButtonDiff::Released
    } else {
        ButtonDiff::Pressed
    }
}

fn to_button_diff(n: u16) -> (r: ButtonDiff)
    requires
        n < 4,
    ensures
        r == diff_of_code(n),
{
    if n == 0 {
        ButtonDiff::NotHeld
    } else if n == 1 {
        ButtonDiff::Held
    } else if n == 2 {
        ButtonDiff::Released
    } else {
        ButtonDiff::Pressed
    }
}

/// The two-bit pair stored at shift `sh` of a packed word.
pub open spec fn pair_bits(bits: u16, sh: u16) -> u16 {
    (bits >> sh) & 3
}

/// The packed word with the pair at shift `sh` replaced by `code`.
pub open spec fn set_pair(bits: u16, sh: u16, code: u16) -> u16 {
    (bits & !(3u16 << sh)) | ((code & 3) << sh)
}

/// The edge state a packed word holds for one button.
pub open spec fn diff_at(bits: u16, button: DiscreteInput) -> ButtonDiff {
    diff_of_code(pair_bits(bits, get_shift_spec(button)))
}

/// Whether a packed word says the button is down.
pub open spec fn down_at(bits: u16, button: DiscreteInput) -> bool {
    diff_at(bits, button).is_down_spec()
}

proof fn lemma_pair_bits_bound(bits: u16, sh: u16)
    ensures
        pair_bits(bits, sh) < 4,
{
    assert((bits >> sh) & 3 < 4) by (bit_vector);
}

proof fn lemma_set_pair_same(bits: u16, sh: u16, code: u16)
    requires
        code < 4,
        sh <= 8,
    ensures
        pair_bits(set_pair(bits, sh, code), sh) == code,
{
    assert(code < 4 && sh <= 8 ==> (((bits & !(3u16 << sh)) | ((code & 3) << sh)) >> sh) & 3
        == code) by (bit_vector);
}

proof fn lemma_set_pair_other(bits: u16, sh: u16, other: u16, code: u16)
    requires
        sh % 2 == 0,
        other % 2 == 0,
        sh <= 8,
        other <= 8,
        sh != other,
    ensures
        pair_bits(set_pair(bits, sh, code), other) == pair_bits(bits, other),
{
    assert(sh % 2 == 0 && other % 2 == 0 && sh <= 8 && other <= 8 && sh != other ==> ((((bits
        & !(3u16 << sh)) | ((code & 3) << sh)) >> other) & 3) == ((bits >> other) & 3))
        by (bit_vector);
}

/// The next edge state of one button, given its previous edge state and
/// whether the button is physically down this tick: a button becomes
/// `Pressed` only on an up-to-down transition, `Held` while it stays down,
/// `Released` on a down-to-up transition, and `NotHeld` while it stays up.
pub open spec fn mk_diff_spec(old_diff: ButtonDiff, new_input: InputState) -> ButtonDiff {
    match (old_diff.is_down_spec(), new_input) {
        (true, InputState::Activated) => ButtonDiff::Held,
        (true, InputState::NotActivated) => ButtonDiff::Released,
        (false, InputState::Activated) => ButtonDiff::Pressed,
        (false, InputState::NotActivated) => ButtonDiff::NotHeld,
    }
}

pub fn mk_diff(old_diff: ButtonDiff, new_input: InputState) -> (r: ButtonDiff)
    ensures
        r == mk_diff_spec(old_diff, new_input),
{
    if is_being_pressed(old_diff) {
        match new_input {
            InputState::Activated => ButtonDiff::Held,
            InputState::NotActivated => ButtonDiff::Released,
        }
    } else {
        match new_input {
            InputState::Activated => ButtonDiff::Pressed,
            InputState::NotActivated => ButtonDiff::NotHeld,
        }
    }
}

fn packed_get(bits: u16, button: DiscreteInput) -> (r: ButtonDiff)
    ensures
        r == diff_at(bits, button),
{
    let shift = get_shift(button);
    let mask = 3u16 << shift;
    let masked_val = bits & mask;
    let flag = masked_val >> shift;
    proof {
        assert((bits & (3u16 << shift)) >> shift == (bits >> shift) & 3) by (bit_vector);
        lemma_pair_bits_bound(bits, shift);
    }
    to_button_diff(flag)
}

fn packed_set(bits: u16, button: DiscreteInput, diff: ButtonDiff) -> (r: u16)
    ensures
        r == set_pair(bits, get_shift_spec(button), diff.code_spec()),
        diff_at(r, button) == diff,
        forall|b: DiscreteInput| b != button ==> diff_at(r, b) == diff_at(bits, b),
{
    let shift = get_shift(button);
    let mask = 3u16 << shift;
    let flag = diff.code() << shift;
    let r = (bits & !mask) | (flag & mask);
    proof {
        let code = diff.code_spec();
        assert(code < 4 ==> ((bits & !(3u16 << shift)) | (((code << shift) as u16) & ((3u16
            << shift) as u16))) == ((bits & !(3u16 << shift)) | (((code & 3) << shift) as u16)))
            by (bit_vector);
        lemma_set_pair_same(bits, shift, code);
        assert(diff_of_code(code) == diff);
        assert forall|b: DiscreteInput| b != button implies diff_at(r, b) == diff_at(bits, b) by {
            lemma_set_pair_other(bits, shift, get_shift_spec(b), code);
        }
    }
    r
}

/// The raw button state read this tick, packed two bits per button. A fresh
/// value has every button `NotHeld`; folding key events marks buttons
/// `Pressed` or `NotHeld`.
#[derive(Clone, Copy, Debug, PartialEq, Eq, Structural)]
pub struct CombinedInput(pub u16);

impl CombinedInput {
    pub fn new() -> (r: Self)
        ensures
            r.0 == 0,
    {
        CombinedInput(0)
    }

    pub fn get(&self, button: DiscreteInput) -> (r: ButtonDiff)
        ensures
            r == diff_at(self.0, button),
    {
        packed_get(self.0, button)
    }

    /// Overwrites one button's pair with the edge state that follows from
    /// this word's current down state and the given physical state.
    pub fn set(&mut self, button: DiscreteInput, state: InputState)
        ensures
            final(self).0 == set_pair(
                old(self).0,
                get_shift_spec(button),
                mk_diff_spec(diff_at(old(self).0, button), state).code_spec(),
            ),
            diff_at(final(self).0, button) == mk_diff_spec(diff_at(old(self).0, button), state),
            forall|b: DiscreteInput|
                b != button ==> diff_at(final(self).0, b) == diff_at(old(self).0, b),
    {
        let next_diff = mk_diff(self.get(button), state);
        self.0 = packed_set(self.0, button, next_diff);
    }

    pub fn is_being_pressed(&self, button: DiscreteInput) -> (r: bool)
        ensures
            r == down_at(self.0, button),
    {
        let diff = self.get(button);
        match diff {
            ButtonDiff::NotHeld => false,
            ButtonDiff::Held => true,
            ButtonDiff::Released => false,
            ButtonDiff::Pressed => true,
        }
    }
}

/// One fighter's per-tick edge state for all five buttons, packed two bits
/// per button. Exactly one `InputDiff` per fighter persists between ticks.
#[derive(Clone, Copy, Debug, PartialEq, Eq, Structural)]
pub struct InputDiff(pub u16);

impl InputDiff {
    pub fn new() -> (r: Self)
        ensures
            r.0 == 0,
    {
        InputDiff(0)
    }

    pub fn get(self, button: DiscreteInput) -> (r: ButtonDiff)
        ensures
            r == diff_at(self.0, button),
    {
        packed_get(self.0, button)
    }

    /// Overwrites one button's pair with the edge state that follows from
    /// this diff's current down state and the given physical state.
    pub fn set(&mut self, button: DiscreteInput, state: InputState)
        ensures
            final(self).0 == set_pair(
                old(self).0,
                get_shift_spec(button),
                mk_diff_spec(diff_at(old(self).0, button), state).code_spec(),
            ),
            diff_at(final(self).0, button) == mk_diff_spec(diff_at(old(self).0, button), state),
            forall|b: DiscreteInput|
                b != button ==> diff_at(final(self).0, b) == diff_at(old(self).0, b),
    {
        let next_diff = mk_diff(self.get(button), state);
        self.0 = packed_set(self.0, button, next_diff);
    }

    pub fn is_being_pressed(self, button: DiscreteInput) -> (r: bool)
        ensures
            r == down_at(self.0, button),
    {
        let diff = self.get(button);
        match diff {
            ButtonDiff::NotHeld => false,
            ButtonDiff::Held => true,
            ButtonDiff::Released => false,
            ButtonDiff::Pressed => true,
        }
    }
}

/// The physical state a packed raw word reports for one button.
pub open spec fn raw_state_at(raw: u16, button: DiscreteInput) -> InputState {
    if down_at(raw, button) {
        InputState::Activated
    } else {
        InputState::NotActivated
    }
}

/// One button's pair of `encode`: the previous diff updated by the raw word.
pub open spec fn encode_step(prev: u16, raw: u16, button: DiscreteInput) -> u16 {
    set_pair(
        prev,
        get_shift_spec(button),
        mk_diff_spec(diff_at(prev, button), raw_state_at(raw, button)).code_spec(),
    )
}

/// The packed word `encode` produces: every button's pair replaced, in button
/// order, by the edge state that follows from the previous diff and the raw
/// word.
pub open spec fn encode_spec(prev: u16, raw: u16) -> u16 {
    let b0 = encode_step(prev, raw, DiscreteInput::Jump);
    let b1 = encode_step(b0, raw, DiscreteInput::Hit);
    let b2 = encode_step(b1, raw, DiscreteInput::Left);
    let b3 = encode_step(b2, raw, DiscreteInput::Right);
    encode_step(b3, raw, DiscreteInput::Down)
}

/// Advances a fighter's persisted edge state by one tick: each button's new
/// edge state follows from its previous edge state and whether the raw word
/// reports it down this tick.
pub fn encode(raw: &CombinedInput, prev: InputDiff) -> (r: InputDiff)
    ensures
        r.0 == encode_spec(prev.0, raw.0),
        forall|b: DiscreteInput|
            diff_at(r.0, b) == mk_diff_spec(diff_at(prev.0, b), raw_state_at(raw.0, b)),
{
    let mut d = prev;
    set_from_raw(&mut d, raw, DiscreteInput::Jump);
    set_from_raw(&mut d, raw, DiscreteInput::Hit);
    set_from_raw(&mut d, raw, DiscreteInput::Left);
    set_from_raw(&mut d, raw, DiscreteInput::Right);
    set_from_raw(&mut d, raw, DiscreteInput::Down);
    proof {
        lemma_encode_per_button(prev.0, raw.0);
    }
    d
}

fn set_from_raw(d: &mut InputDiff, raw: &CombinedInput, button: DiscreteInput)
    ensures
        final(d).0 == encode_step(old(d).0, raw.0, button),
        diff_at(final(d).0, button) == mk_diff_spec(
            diff_at(old(d).0, button),
            raw_state_at(raw.0, button),
        ),
        forall|b: DiscreteInput| b != button ==> diff_at(final(d).0, b) == diff_at(old(d).0, b),
{
    let state = if raw.is_being_pressed(button) {
        InputState::Activated
    } else {
        InputState::NotActivated
    };
    d.set(button, state);
}

proof fn lemma_zero_pair(sh: u16)
    ensures
        pair_bits(0u16, sh) == 0,
{
    assert((0u16 >> sh) & 3 == 0) by (bit_vector);
}

/// The physical state the first event for a button reports, if the tick had
/// any event for that button.
pub open spec fn first_state_for(
    events: Seq<(DiscreteInput, InputState)>,
    button: DiscreteInput,
) -> Option<InputState>
    decreases events.len(),
{
    if events.len() == 0 {
        None
    } else if events[0].0 == button {
        Some(events[0].1)
    } else {
        first_state_for(events.drop_first(), button)
    }
}

/// The edge state `fold_events` leaves for one button: the first event for
/// the button applied to a fresh (not held) state, or `NotHeld` if the tick
/// had no event for it.
pub open spec fn folded_state(
    events: Seq<(DiscreteInput, InputState)>,
    button: DiscreteInput,
) -> ButtonDiff {
    match first_state_for(events, button) {
        Some(s) => mk_diff_spec(ButtonDiff::NotHeld, s),
        None => ButtonDiff::NotHeld,
    }
}

fn first_state(events: &Vec<(DiscreteInput, InputState)>, button: DiscreteInput) -> (r: Option<
    InputState,
>)
    ensures
        r == first_state_for(events@, button),
{
    let mut i: usize = 0;
    proof {
        assert(events@.skip(0) =~= events@);
    }
    while i < events.len()
        invariant
            i <= events.len(),
            first_state_for(events@, button) == first_state_for(events@.skip(i as int), button),
        decreases events.len() - i,
    {
        let (b, s) = events[i];
        proof {
            assert(events@.skip(i as int)[0] == events@[i as int]);
        }
        if b == button {
            return Some(s);
        }
        proof {
            assert(events@.skip(i as int).drop_first() =~= events@.skip(i + 1 as int));
        }
        i = i + 1;
    }
    None
}

fn apply_first(c: &mut CombinedInput, events: &Vec<(DiscreteInput, InputState)>, button:
    DiscreteInput)
    requires
        diff_at(old(c).0, button) == ButtonDiff::NotHeld,
    ensures
        diff_at(final(c).0, button) == folded_state(events@, button),
        forall|b: DiscreteInput| b != button ==> diff_at(final(c).0, b) == diff_at(old(c).0, b),
{
    match first_state(events, button) {
        Some(s) => c.set(button, s),
        None => (),
    }
}

/// Folds one tick's raw key events into a packed raw word. Within a tick,
/// earlier events take precedence: only the first event for each button
/// counts, and a button with no event stays not held.
pub fn fold_events(events: &Vec<(DiscreteInput, InputState)>) -> (r: CombinedInput)
    ensures
        forall|b: DiscreteInput| diff_at(r.0, b) == folded_state(events@, b),
{
    let mut c = CombinedInput::new();
    proof {
        assert forall|b: DiscreteInput| diff_at(0u16, b) == ButtonDiff::NotHeld by {
            lemma_zero_pair(get_shift_spec(b));
        }
    }
    apply_first(&mut c, events, DiscreteInput::Jump);
    apply_first(&mut c, events, DiscreteInput::Hit);
    apply_first(&mut c, events, DiscreteInput::Left);
    apply_first(&mut c, events, DiscreteInput::Right);
    apply_first(&mut c, events, DiscreteInput::Down);
    c
}

/// Whether an edge state counts as the button being down.
pub fn is_being_pressed(diff: ButtonDiff) -> (r: bool)
    ensures
        r == diff.is_down_spec(),
{
    match diff {
        ButtonDiff::NotHeld => false,
        ButtonDiff::Held => true,
        ButtonDiff::Released => false,
        ButtonDiff::Pressed => true,
    }
}

/// Decodes one button's edge state out of a packed diff.
pub fn decode(diff: InputDiff, button: DiscreteInput) -> (r: ButtonDiff)
    ensures
        r == diff_at(diff.0, button),
{
    diff.get(button)
}

/// Round trip: for every previous diff and every raw word, encoding and then
/// decoding any button reproduces exactly the edge state the transition rule
/// assigns to that button.
pub proof fn lemma_round_trip(prev: u16, raw: u16, button: DiscreteInput)
    ensures
        diff_at(encode_spec(prev, raw), button) == mk_diff_spec(
            diff_at(prev, button),
            raw_state_at(raw, button),
        ),
{
    lemma_encode_per_button(prev, raw);
}

proof fn lemma_encode_per_button(prev: u16, raw: u16)
    ensures
        forall|b: DiscreteInput|
            diff_at(encode_spec(prev, raw), b) == mk_diff_spec(
                diff_at(prev, b),
                raw_state_at(raw, b),
            ),
{
    let b0 = encode_step(prev, raw, DiscreteInput::Jump);
    let b1 = encode_step(b0, raw, DiscreteInput::Hit);
    let b2 = encode_step(b1, raw, DiscreteInput::Left);
    let b3 = encode_step(b2, raw, DiscreteInput::Right);
    let b4 = encode_step(b3, raw, DiscreteInput::Down);
    assert forall|b: DiscreteInput|
        diff_at(b4, b) == mk_diff_spec(diff_at(prev, b), raw_state_at(raw, b)) by {
        lemma_encode_step_effect(prev, raw, DiscreteInput::Jump);
        lemma_encode_step_effect(b0, raw, DiscreteInput::Hit);
        lemma_encode_step_effect(b1, raw, DiscreteInput::Left);
        lemma_encode_step_effect(b2, raw, DiscreteInput::Right);
        lemma_encode_step_effect(b3, raw, DiscreteInput::Down);
    }
}

proof fn lemma_encode_step_effect(bits: u16, raw: u16, button: DiscreteInput)
    ensures
        diff_at(encode_step(bits, raw, button), button) == mk_diff_spec(
            diff_at(bits, button),
            raw_state_at(raw, button),
        ),
        forall|b: DiscreteInput|
            b != button ==> diff_at(encode_step(bits, raw, button), b) == diff_at(bits, b),
{
    let code = mk_diff_spec(diff_at(bits, button), raw_state_at(raw, button)).code_spec();
    lemma_set_pair_same(bits, get_shift_spec(button), code);
    assert forall|b: DiscreteInput|
        b != button implies diff_at(encode_step(bits, raw, button), b) == diff_at(bits, b) by {
        lemma_set_pair_other(bits, get_shift_spec(button), get_shift_spec(b), code);
    }
}

} // verus!
