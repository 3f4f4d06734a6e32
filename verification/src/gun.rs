//! The gun: a latch that chambers a round when it is closed, and a chamber that
//! one shot empties.

use vstd::prelude::*;

verus! {

/// Position of the latch.
#[derive(Debug, Clone, Copy, PartialEq, Eq, Structural)]
pub enum LatchState {
    Closed,
    Open,
}

/// Why a shot could not be fired.
#[derive(Debug, Clone, Copy, PartialEq, Eq, Structural)]
pub enum ConsumeError {
    LatchWasOpen,
    NotLoaded,
}

/// What a [`Gun`] is, as a plain value: whether a round is chambered, and where
/// the latch stands.
pub struct GunState {
    pub is_loaded: bool,
    pub latch_state: LatchState,
}

impl GunState {
    /// A gun as it is made: latch closed, chamber empty.
    pub open spec fn fresh() -> GunState {
        GunState { is_loaded: false, latch_state: LatchState::Closed }
    }

    /// A shot can be fired: the latch is closed on a chambered round.
    pub open spec fn can_shoot(self) -> bool {
        self.is_loaded && self.latch_state == LatchState::Closed
    }

    /// Closing an open latch chambers a round.
    pub open spec fn chambers(self, state: LatchState) -> bool {
        self.latch_state == LatchState::Open && state == LatchState::Closed
    }

    /// The gun after its latch is set to `state`.
    pub open spec fn with_latch(self, state: LatchState) -> GunState {
        GunState { is_loaded: self.is_loaded || self.chambers(state), latch_state: state }
    }

    /// What an attempt to fire answers. An open latch is reported before an
    /// empty chamber.
    pub open spec fn consume_outcome(self) -> Result<(), ConsumeError> {
        if self.latch_state == LatchState::Open {
            Err(ConsumeError::LatchWasOpen)
        } else if !self.is_loaded {
            Err(ConsumeError::NotLoaded)
        } else {
            Ok(())
        }
    }

    /// The gun after an attempt to fire: a successful shot empties the chamber,
    /// a failed one changes nothing.
    pub open spec fn after_consume(self) -> GunState {
        if self.can_shoot() {
            GunState { is_loaded: false, latch_state: self.latch_state }
        } else {
            self
        }
    }

    /// The gun after its latch was set to each of `states` in turn.
    pub open spec fn after_latch_sequence(self, states: Seq<LatchState>) -> GunState
        decreases states.len(),
    {
        if states.len() == 0 {
            self
        } else {
            self.after_latch_sequence(states.drop_last()).with_latch(states.last())
        }
    }
}

pub struct Gun {
    is_loaded: bool,
    latch_state: LatchState,
}

impl View for Gun {
    type V = GunState;

    closed spec fn view(&self) -> GunState {
        GunState { is_loaded: self.is_loaded, latch_state: self.latch_state }
    }
}

impl Gun {
    pub fn new() -> (gun: Gun)
        ensures
            gun@ == GunState::fresh(),
    {
        Gun { is_loaded: false, latch_state: LatchState::Closed }
    }

    pub fn can_shoot(&self) -> (ready: bool)
        ensures
            ready == self@.can_shoot(),
    {
        self.is_loaded && self.latch_state == LatchState::Closed
    }

    pub fn set_latch_state(&mut self, state: LatchState)
        ensures
            final(self)@ == old(self)@.with_latch(state),
    {
        if self.latch_state == LatchState::Open && state == LatchState::Closed {
            self.is_loaded = true;
        }
        self.latch_state = state;
    }

    pub fn try_consume(&mut self) -> (outcome: Result<(), ConsumeError>)
        ensures
            outcome == old(self)@.consume_outcome(),
            final(self)@ == old(self)@.after_consume(),
    {
        match self.latch_state {
            LatchState::Open => Err(ConsumeError::LatchWasOpen),
            LatchState::Closed => {
                if self.is_loaded {
                    self.is_loaded = false;
                    Ok(())
                } else {
                    Err(ConsumeError::NotLoaded)
                }
            },
        }
    }
}

/// Along any sequence of latch settings the chamber fills at a step exactly
/// when that step closes an open latch over an empty chamber; setting the latch
/// to open never fills it, nor does closing a latch that is closed already,
/// and no setting empties it.
pub proof fn lemma_loads_only_on_closing(start: GunState, states: Seq<LatchState>, i: int)
    requires
        0 <= i < states.len(),
    ensures
        ({
            let before = start.after_latch_sequence(states.take(i));
            let after = start.after_latch_sequence(states.take(i + 1));
            &&& after == before.with_latch(states[i])
            &&& before.latch_state == (if i == 0 {
                start.latch_state
            } else {
                states[i - 1]
            })
            &&& after.latch_state == states[i]
            &&& (!before.is_loaded && after.is_loaded) <==> (!before.is_loaded
                && before.latch_state == LatchState::Open && states[i] == LatchState::Closed)
            &&& states[i] == LatchState::Open ==> after.is_loaded == before.is_loaded
            &&& before.latch_state == LatchState::Closed ==> after.is_loaded == before.is_loaded
            &&& before.is_loaded ==> after.is_loaded
        }),
{
    let upto = states.take(i + 1);
    assert(upto.drop_last() =~= states.take(i));
    assert(upto.last() == states[i]);
    if i > 0 {
        let earlier = states.take(i);
        assert(earlier.last() == states[i - 1]);
    }
}

/// With the latch open an attempt to fire answers `LatchWasOpen` and changes
/// nothing, whether or not a round is chambered.
pub proof fn lemma_open_latch_refuses(gun: GunState)
    requires
        gun.latch_state == LatchState::Open,
    ensures
        gun.consume_outcome() == Err::<(), ConsumeError>(ConsumeError::LatchWasOpen),
        gun.after_consume() == gun,
{
}

/// A gun that was never loaded answers `NotLoaded`.
pub proof fn lemma_fresh_gun_is_empty()
    ensures
        GunState::fresh().consume_outcome() == Err::<(), ConsumeError>(ConsumeError::NotLoaded),
        GunState::fresh().after_consume() == GunState::fresh(),
{
}

/// From any state, opening and then closing the latch chambers one round:
/// the next attempt to fire succeeds and empties the chamber, and the attempt
/// after that answers `NotLoaded`.
pub proof fn lemma_one_shot_per_cycle(gun: GunState)
    ensures
        ({
            let cycled = gun.with_latch(LatchState::Open).with_latch(LatchState::Closed);
            let fired = cycled.after_consume();
            &&& cycled.can_shoot()
            &&& cycled.consume_outcome() == Ok::<(), ConsumeError>(())
            &&& !fired.is_loaded
            &&& fired.latch_state == LatchState::Closed
            &&& fired.consume_outcome() == Err::<(), ConsumeError>(ConsumeError::NotLoaded)
            &&& fired.after_consume() == fired
        }),
{
}

} // verus!
