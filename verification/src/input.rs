//! The sample buffers between the controller and the game loop.
//!
//! Controller events are recorded as they arrive, one sample per control and
//! frame; the game loop asks about buttons and sliders, and at the end of each
//! frame moves what arrived into the buffer of the frame before.

use crate::fraction::{Fraction, FULL_SCALE};
use std::collections::HashMap;
use vstd::prelude::*;

verus! {

broadcast use vstd::std_specs::hash::group_hash_axioms;

/// The most recent value that a control reported, and when.
#[derive(Eq, Clone, Debug, Copy, PartialEq, Structural)]
pub struct InputDataRaw {
    pub timestamp: u64,
    pub value: u8,
}

/// The direction in which a slider has to pass a threshold.
#[derive(Eq, Clone, Debug, Copy, PartialEq, Structural)]
pub enum SliderLimitCheck {
    Higher,
    Lower,
}

/// What an [`Input`] holds: for each control, the sample of this frame and the
/// sample that was last carried over from an earlier frame, where there is one.
#[verifier::ext_equal]
pub struct InputState {
    pub current: Map<u8, InputDataRaw>,
    pub previous: Map<u8, InputDataRaw>,
}

impl InputState {
    /// No sample in either buffer.
    pub open spec fn empty() -> InputState {
        InputState { current: Map::empty(), previous: Map::empty() }
    }

    /// The buffers after control `id` reported `sample`: it replaces what the
    /// control reported earlier in this frame.
    pub open spec fn received(self, id: u8, sample: InputDataRaw) -> InputState {
        InputState { current: self.current.insert(id, sample), previous: self.previous }
    }

    /// The control reported full scale in this frame. A value carried over from
    /// an earlier frame does not count.
    pub open spec fn pressed(self, id: u8) -> bool {
        self.current.contains_key(id) && self.current[id].value == FULL_SCALE
    }

    /// At least one buffer has a sample of the control, and each sample that
    /// there is stands at full scale.
    pub open spec fn held(self, id: u8) -> bool {
        &&& self.current.contains_key(id) || self.previous.contains_key(id)
        &&& self.current.contains_key(id) ==> self.current[id].value == FULL_SCALE
        &&& self.previous.contains_key(id) ==> self.previous[id].value == FULL_SCALE
    }

    /// The raw value that the control stands at: that of this frame, else the
    /// one carried over, else zero.
    pub open spec fn level(self, id: u8) -> u8 {
        if self.current.contains_key(id) {
            self.current[id].value
        } else if self.previous.contains_key(id) {
            self.previous[id].value
        } else {
            0
        }
    }

    /// Both buffers have a sample of the control, and from the earlier one to
    /// this frame's the slider has passed `threshold` in the direction asked
    /// for: upwards from below it to it or beyond, or downwards from above it
    /// to it or beyond.
    pub open spec fn crossed(self, id: u8, threshold: Fraction, limit: SliderLimitCheck) -> bool {
        &&& self.current.contains_key(id)
        &&& self.previous.contains_key(id)
        &&& match limit {
            SliderLimitCheck::Higher => threshold.reached_by(self.current[id].value)
                && !threshold.reached_by(self.previous[id].value),
            SliderLimitCheck::Lower => !threshold.exceeded_by(self.current[id].value)
                && threshold.exceeded_by(self.previous[id].value),
        }
    }

    /// The buffers after the end of a frame: each sample of this frame has
    /// replaced the one carried over for its control, the samples of controls
    /// that did not report stay as they are, and this frame's buffer is empty.
    pub open spec fn flushed(self) -> InputState {
        InputState {
            current: Map::empty(),
            previous: self.previous.union_prefer_right(self.current),
        }
    }
}

pub struct Input {
    raw_inputs: HashMap<u8, InputDataRaw>,
    previous_raw_inputs: HashMap<u8, InputDataRaw>,
}

impl View for Input {
    type V = InputState;

    closed spec fn view(&self) -> InputState {
        InputState { current: self.raw_inputs@, previous: self.previous_raw_inputs@ }
    }
}

impl Input {
    pub fn new() -> (input: Input)
        ensures
            input@ == InputState::empty(),
    {
        Input {
            raw_inputs: HashMap::with_capacity(16),
            previous_raw_inputs: HashMap::with_capacity(16),
        }
    }

    /// Records one control-change message that arrived at time `stamp`: its
    /// second byte names the control, its third is the value.
    pub fn receive(&mut self, stamp: u64, message: &[u8])
        requires
            message@.len() >= 3,
        ensures
            final(self)@ == old(self)@.received(
                message@[1],
                (InputDataRaw { timestamp: stamp, value: message@[2] }),
            ),
    {
        let identifier: u8 = message[1];
        self.raw_inputs.insert(identifier, InputDataRaw { timestamp: stamp, value: message[2] });
    }

    pub fn is_button_held(&self, id: u8) -> (held: bool)
        ensures
            held == self@.held(id),
    {
        match self.raw_inputs.get(&id) {
            Some(raw_input) => match self.previous_raw_inputs.get(&id) {
                Some(previous_raw_input) => raw_input.value == FULL_SCALE
                    && previous_raw_input.value == FULL_SCALE,
                None => raw_input.value == FULL_SCALE,
            },
            None => match self.previous_raw_inputs.get(&id) {
                Some(previous_raw_input) => previous_raw_input.value == FULL_SCALE,
                None => false,
            },
        }
    }

    pub fn is_button_pressed(&self, id: u8) -> (pressed: bool)
        ensures
            pressed == self@.pressed(id),
    {
        match self.raw_inputs.get(&id) {
            Some(raw_input) => raw_input.value == FULL_SCALE,
            None => false,
        }
    }

    pub fn is_button_released(&self, id: u8) -> (released: bool)
        ensures
            released == !self@.pressed(id),
    {
        !self.is_button_pressed(id)
    }

    pub fn get_fraction(&self, id: u8) -> (fraction: Fraction)
        ensures
            fraction == Fraction::of_level(self@.level(id)),
    {
        match self.raw_inputs.get(&id) {
            Some(raw_input) => Fraction::from_level(raw_input.value),
            None => match self.previous_raw_inputs.get(&id) {
                Some(previous_raw_input) => Fraction::from_level(previous_raw_input.value),
                None => Fraction::from_level(0),
            },
        }
    }

    pub fn fraction_reached_limit(
        &self,
        id: u8,
        fraction: Fraction,
        limit: SliderLimitCheck,
    ) -> (reached: bool)
        ensures
            reached == self@.crossed(id, fraction, limit),
    {
        match self.raw_inputs.get(&id) {
            Some(raw_input) => match self.previous_raw_inputs.get(&id) {
                Some(previous_raw_input) => match limit {
                    SliderLimitCheck::Lower => !fraction.is_exceeded_by(raw_input.value)
                        && fraction.is_exceeded_by(previous_raw_input.value),
                    SliderLimitCheck::Higher => fraction.is_reached_by(raw_input.value)
                        && !fraction.is_reached_by(previous_raw_input.value),
                },
                None => false,
            },
            None => false,
        }
    }

    /// Ends the frame.
    pub fn flush(&mut self)
        ensures
            final(self)@ == old(self)@.flushed(),
    {
        let ghost carried = self.previous_raw_inputs@;
        let ghost arrived = self.raw_inputs@;
        for entry in entries: self.raw_inputs.iter()
            invariant
                self.raw_inputs@ == arrived,
                forall|j: int|
                    0 <= j < entries.seq().len() ==> arrived.contains_key(
                        *(#[trigger] entries.seq()[j]).0,
                    ) && arrived[*entries.seq()[j].0] == *entries.seq()[j].1,
                forall|id: u8|
                    arrived.contains_key(id) ==> #[trigger] reported(
                        entries.seq(),
                        entries.seq().len() as int,
                    ).contains(id),
                self.previous_raw_inputs@ == carried.union_prefer_right(
                    arrived.restrict(reported(entries.seq(), entries.index())),
                ),
        {
            let (id, raw_input) = entry;
            self.previous_raw_inputs.insert(*id, *raw_input);
        }
        self.raw_inputs.clear();
    }
}

/// The controls that the first `n` of `entries` belong to.
spec fn reported(entries: Seq<(&u8, &InputDataRaw)>, n: int) -> Set<u8> {
    Set::new(|id: u8| exists|j: int| 0 <= j < n && *(#[trigger] entries[j]).0 == id)
}

/// A control that has not reported in this frame is not pressed, whatever it
/// reported before.
pub proof fn lemma_pressed_needs_sample_of_this_frame(state: InputState, id: u8)
    requires
        !state.current.contains_key(id),
    ensures
        !state.pressed(id),
{
}

/// Where a control has a sample in both buffers or in neither, or its only
/// sample is not at full scale, it is held exactly when both buffers have a
/// sample of it and both stand at full scale.
pub proof fn lemma_held_needs_both_at_full_scale(state: InputState, id: u8)
    requires
        !(state.current.contains_key(id) && !state.previous.contains_key(id)
            && state.current[id].value == FULL_SCALE),
        !(!state.current.contains_key(id) && state.previous.contains_key(id)
            && state.previous[id].value == FULL_SCALE),
    ensures
        state.held(id) <==> state.current.contains_key(id) && state.previous.contains_key(id)
            && state.current[id].value == FULL_SCALE && state.previous[id].value == FULL_SCALE,
{
}

/// Seven tenths of full scale lie between the raw values 88 and 89: a slider
/// has risen past seven tenths exactly when both buffers have a sample of it,
/// the earlier one below 89 and this frame's at 89 or above.
pub proof fn lemma_rising_past_seven_tenths(state: InputState, id: u8)
    ensures
        state.crossed(id, Fraction { numerator: 7, denominator: 10 }, SliderLimitCheck::Higher)
            <==> state.current.contains_key(id) && state.previous.contains_key(id)
            && state.previous[id].value < 89 && 89 <= state.current[id].value,
{
}

/// No threshold is crossed, in either direction, by a control that lacks a
/// sample in one of the buffers.
pub proof fn lemma_crossing_needs_two_samples(
    state: InputState,
    id: u8,
    threshold: Fraction,
    limit: SliderLimitCheck,
)
    requires
        !state.current.contains_key(id) || !state.previous.contains_key(id),
    ensures
        !state.crossed(id, threshold, limit),
{
}

/// No threshold is crossed, in either direction, by a slider that stands where
/// it stood.
pub proof fn lemma_crossing_needs_movement(
    state: InputState,
    id: u8,
    threshold: Fraction,
    limit: SliderLimitCheck,
)
    requires
        state.current.contains_key(id),
        state.previous.contains_key(id),
        state.current[id].value == state.previous[id].value,
    ensures
        !state.crossed(id, threshold, limit),
{
}

/// The end of a frame always leaves this frame's buffer empty, and leaves the
/// carried-over sample of every control that did not report as it was. So a
/// second end of frame with nothing received in between changes nothing, and
/// no end of frame changes the level that a control stands at.
pub proof fn lemma_flush_keeps_what_did_not_report(state: InputState, id: u8)
    ensures
        state.flushed().current == Map::<u8, InputDataRaw>::empty(),
        !state.current.contains_key(id) ==> state.flushed().previous.contains_key(id)
            == state.previous.contains_key(id),
        !state.current.contains_key(id) && state.previous.contains_key(id)
            ==> state.flushed().previous[id] == state.previous[id],
        state.flushed().flushed() == state.flushed(),
        state.flushed().level(id) == state.level(id),
{
}

} // verus!
