//! The player's controls: what one frame of input makes the player do.
//!
//! The decisions are taken here; moving the body, playing the sounds and
//! driving the sprite are left to the caller, who is told what to do.

use crate::fraction::Fraction;
use crate::gun::{ConsumeError, Gun, GunState, LatchState};
use crate::input::{Input, InputState, SliderLimitCheck};
use vstd::prelude::*;

verus! {

/// Button that moves the player to the left while it is held.
pub const MOVE_LEFT: u8 = 41;

/// Button that moves the player to the right while it is held.
pub const MOVE_RIGHT: u8 = 45;

/// Button that makes the player jump.
pub const JUMP: u8 = 64;

/// Button that fires the gun.
pub const FIRE: u8 = 65;

/// Slider that sets how strong the next jump is.
pub const JUMP_STRENGTH_SLIDER: u8 = 0;

/// Slider that opens the latch on its way up and closes it on its way down.
pub const LATCH_SLIDER: u8 = 1;

/// Slider that makes the player stand up on its way up and crouch on its way
/// down.
pub const CROUCH_SLIDER: u8 = 2;

/// The sounds of the game.
#[derive(Hash, Eq, Clone, Debug, Copy, PartialEq, Structural)]
pub enum SoundIdentifier {
    Jump,
    Jammed,
    LatchOpen,
    LatchClose,
    Shoot,
    Crouch,
    Uncrouch,
}

/// The animations of the player's sprite: each action standing and crouched.
#[derive(Hash, Eq, Clone, Debug, Copy, PartialEq, Structural)]
pub enum PlayerAnimationIdentifier {
    Idle,
    Run,
    Shoot,
    HatchOpen,
    HatchClose,
    Jammed,
    CrouchIdle,
    CrouchRun,
    CrouchHatchOpen,
    CrouchHatchClose,
    CrouchJammed,
    CrouchShoot,
}

/// What the player does, whatever the stance.
#[derive(Hash, Eq, Clone, Debug, Copy, PartialEq, Structural)]
pub enum PlayerAnimationNoStanceIdentifier {
    Idle,
    Run,
    Shoot,
    HatchOpen,
    HatchClose,
    Jammed,
}

impl PlayerAnimationIdentifier {
    /// The action that the animation shows.
    pub open spec fn action(self) -> PlayerAnimationNoStanceIdentifier {
        match self {
            PlayerAnimationIdentifier::Idle | PlayerAnimationIdentifier::CrouchIdle =>
                PlayerAnimationNoStanceIdentifier::Idle,
            PlayerAnimationIdentifier::Run | PlayerAnimationIdentifier::CrouchRun =>
                PlayerAnimationNoStanceIdentifier::Run,
            PlayerAnimationIdentifier::Shoot | PlayerAnimationIdentifier::CrouchShoot =>
                PlayerAnimationNoStanceIdentifier::Shoot,
            PlayerAnimationIdentifier::HatchOpen | PlayerAnimationIdentifier::CrouchHatchOpen =>
                PlayerAnimationNoStanceIdentifier::HatchOpen,
            PlayerAnimationIdentifier::HatchClose | PlayerAnimationIdentifier::CrouchHatchClose =>
                PlayerAnimationNoStanceIdentifier::HatchClose,
            PlayerAnimationIdentifier::Jammed | PlayerAnimationIdentifier::CrouchJammed =>
                PlayerAnimationNoStanceIdentifier::Jammed,
        }
    }

    /// The animation shows the player crouched.
    pub open spec fn is_crouched(self) -> bool {
        match self {
            PlayerAnimationIdentifier::CrouchIdle
            | PlayerAnimationIdentifier::CrouchRun
            | PlayerAnimationIdentifier::CrouchShoot
            | PlayerAnimationIdentifier::CrouchHatchOpen
            | PlayerAnimationIdentifier::CrouchHatchClose
            | PlayerAnimationIdentifier::CrouchJammed => true,
            _ => false,
        }
    }

    /// The animation is the one that shows `action` in the given stance.
    pub open spec fn shows(
        self,
        action: PlayerAnimationNoStanceIdentifier,
        is_crouched: bool,
    ) -> bool {
        self.action() == action && self.is_crouched() == is_crouched
    }
}

impl PlayerAnimationNoStanceIdentifier {
    pub fn to_animation(self, is_crouched: bool) -> (animation: PlayerAnimationIdentifier)
        ensures
            animation.shows(self, is_crouched),
    {
        if is_crouched {
            match self {
                PlayerAnimationNoStanceIdentifier::Idle => PlayerAnimationIdentifier::CrouchIdle,
                PlayerAnimationNoStanceIdentifier::Run => PlayerAnimationIdentifier::CrouchRun,
                PlayerAnimationNoStanceIdentifier::Shoot => PlayerAnimationIdentifier::CrouchShoot,
                PlayerAnimationNoStanceIdentifier::HatchOpen =>
                    PlayerAnimationIdentifier::CrouchHatchOpen,
                PlayerAnimationNoStanceIdentifier::HatchClose =>
                    PlayerAnimationIdentifier::CrouchHatchClose,
                PlayerAnimationNoStanceIdentifier::Jammed =>
                    PlayerAnimationIdentifier::CrouchJammed,
            }
        } else {
            match self {
                PlayerAnimationNoStanceIdentifier::Idle => PlayerAnimationIdentifier::Idle,
                PlayerAnimationNoStanceIdentifier::Run => PlayerAnimationIdentifier::Run,
                PlayerAnimationNoStanceIdentifier::Shoot => PlayerAnimationIdentifier::Shoot,
                PlayerAnimationNoStanceIdentifier::HatchOpen =>
                    PlayerAnimationIdentifier::HatchOpen,
                PlayerAnimationNoStanceIdentifier::HatchClose =>
                    PlayerAnimationIdentifier::HatchClose,
                PlayerAnimationNoStanceIdentifier::Jammed => PlayerAnimationIdentifier::Jammed,
            }
        }
    }
}

/// An animation is known by its action and its stance: no two animations show
/// the same action in the same stance.
pub proof fn lemma_action_and_stance_name_one_animation(
    first: PlayerAnimationIdentifier,
    second: PlayerAnimationIdentifier,
)
    requires
        first.action() == second.action(),
        first.is_crouched() == second.is_crouched(),
    ensures
        first == second,
{
}

/// The way the player moves along the ground.
#[derive(Eq, Clone, Debug, Copy, PartialEq, Structural)]
pub enum Direction {
    Left,
    Right,
}

/// An animation to start now, and the one to go on with when it has run.
#[derive(Clone, Copy, Debug)]
pub struct AnimationRequest {
    pub start: PlayerAnimationIdentifier,
    pub fallback: PlayerAnimationIdentifier,
}

/// What the caller has to do for one frame of input.
pub struct PlayerActions {
    /// The way to move the body along the ground, if any.
    pub movement: Option<Direction>,
    /// The strength of the upward impulse to give the body, if it leaves the
    /// ground.
    pub jump: Option<Fraction>,
    /// The sounds to play, in this order.
    pub sounds: Vec<SoundIdentifier>,
    /// The animations to switch to, if any.
    pub animation: Option<AnimationRequest>,
}

/// What the controls ask for in one frame.
#[derive(Clone, Copy, Debug)]
pub struct Intents {
    /// The way to walk, if any.
    pub movement: Option<Direction>,
    /// The jump button is held.
    pub jump_held: bool,
    /// The jump button was pressed in this frame.
    pub jump_pressed: bool,
    /// The trigger was pulled in this frame.
    pub fire: bool,
    /// The latch slider has risen past the rising threshold.
    pub open_latch: bool,
    /// The latch slider has fallen past the falling threshold.
    pub close_latch: bool,
    /// The crouch slider has risen past the rising threshold.
    pub stand_up: bool,
    /// The crouch slider has fallen past the falling threshold.
    pub crouch: bool,
    /// Where the jump-strength slider stands.
    pub jump_strength: Fraction,
}

/// What a [`Player`] is, as a plain value.
pub struct PlayerState {
    pub jump_strength: Fraction,
    pub is_grounded: bool,
    pub gun: GunState,
    pub is_crouching: bool,
    pub is_facing_right: bool,
}

/// The part of its travel that a slider has to rise to, from below, for its
/// upward action: seven tenths.
pub open spec fn rising_threshold() -> Fraction {
    Fraction { numerator: 7, denominator: 10 }
}

/// The part of its travel that a slider has to fall to, from above, for its
/// downward action: three tenths.
pub open spec fn falling_threshold() -> Fraction {
    Fraction { numerator: 3, denominator: 10 }
}

/// `sound` where `due`, else nothing.
pub open spec fn sound_if(due: bool, sound: SoundIdentifier) -> Seq<SoundIdentifier> {
    if due {
        seq![sound]
    } else {
        Seq::empty()
    }
}

/// `request` is the change of animation that is due when `action` is to be
/// shown by a player who is crouching or not and whose sprite shows `current`:
/// none where there is no action or the sprite shows it already in that stance,
/// else the animation of the action, followed by idling, both in that stance.
pub open spec fn is_request_for(
    request: Option<AnimationRequest>,
    action: Option<PlayerAnimationNoStanceIdentifier>,
    is_crouching: bool,
    current: PlayerAnimationIdentifier,
) -> bool {
    match request {
        Some(change) => {
            &&& action matches Some(wanted)
            &&& change.start.shows(wanted, is_crouching)
            &&& change.start != current
            &&& change.fallback.shows(PlayerAnimationNoStanceIdentifier::Idle, is_crouching)
        },
        None => action matches Some(wanted) ==> current.shows(wanted, is_crouching),
    }
}

impl Intents {
    /// What the controls ask for when the buffers hold `input`: walking while
    /// a direction button is held, left before right; a jump while the jump
    /// button is held or when it was pressed; a shot when the trigger was
    /// pulled; latch and stance as their sliders pass the thresholds.
    pub open spec fn of(input: InputState) -> Intents {
        Intents {
            movement: if input.held(MOVE_LEFT) {
                Some(Direction::Left)
            } else if input.held(MOVE_RIGHT) {
                Some(Direction::Right)
            } else {
                None
            },
            jump_held: input.held(JUMP),
            jump_pressed: input.pressed(JUMP),
            fire: input.pressed(FIRE),
            open_latch: input.crossed(LATCH_SLIDER, rising_threshold(), SliderLimitCheck::Higher),
            close_latch: input.crossed(LATCH_SLIDER, falling_threshold(), SliderLimitCheck::Lower),
            stand_up: input.crossed(CROUCH_SLIDER, rising_threshold(), SliderLimitCheck::Higher),
            crouch: input.crossed(CROUCH_SLIDER, falling_threshold(), SliderLimitCheck::Lower),
            jump_strength: Fraction::of_level(input.level(JUMP_STRENGTH_SLIDER)),
        }
    }

    /// The sounds of the frame, in the order in which the controls are looked
    /// at: jump button, trigger, latch, stance. A pulled trigger sounds as a
    /// shot where the gun was `ready` to shoot before the frame, else as a jam.
    pub open spec fn sounds(self, ready: bool) -> Seq<SoundIdentifier> {
        sound_if(self.jump_pressed, SoundIdentifier::Jump) + sound_if(
            self.fire && ready,
            SoundIdentifier::Shoot,
        ) + sound_if(self.fire && !ready, SoundIdentifier::Jammed) + sound_if(
            self.open_latch,
            SoundIdentifier::LatchOpen,
        ) + sound_if(self.close_latch, SoundIdentifier::LatchClose) + sound_if(
            self.stand_up,
            SoundIdentifier::Uncrouch,
        ) + sound_if(self.crouch, SoundIdentifier::Crouch)
    }

    /// The action to show for the frame, if any, where the gun was `ready` to
    /// shoot before the frame or not. Where several controls ask for an
    /// action, the control that is looked at last decides: a change of stance
    /// before the latch, the latch before the trigger, the trigger before
    /// walking.
    pub open spec fn action(self, ready: bool) -> Option<PlayerAnimationNoStanceIdentifier> {
        if self.stand_up || self.crouch {
            Some(PlayerAnimationNoStanceIdentifier::Idle)
        } else if self.close_latch {
            Some(PlayerAnimationNoStanceIdentifier::HatchClose)
        } else if self.open_latch {
            Some(PlayerAnimationNoStanceIdentifier::HatchOpen)
        } else if self.fire {
            Some(
                if ready {
                    PlayerAnimationNoStanceIdentifier::Shoot
                } else {
                    PlayerAnimationNoStanceIdentifier::Jammed
                },
            )
        } else if self.movement is Some {
            Some(PlayerAnimationNoStanceIdentifier::Run)
        } else {
            None
        }
    }

    /// The sounds of the frame, for a gun that was `ready` to shoot before it
    /// or not.
    fn collect_sounds(&self, ready: bool) -> (sounds: Vec<SoundIdentifier>)
        ensures
            sounds@ == self.sounds(ready),
    {
        let mut sounds: Vec<SoundIdentifier> = Vec::new();
        if self.jump_pressed {
            sounds.push(SoundIdentifier::Jump);
        }
        let ghost heard_jump = sounds@;
        assert(heard_jump =~= sound_if(self.jump_pressed, SoundIdentifier::Jump));
        if self.fire {
            if ready {
                sounds.push(SoundIdentifier::Shoot);
            } else {
                sounds.push(SoundIdentifier::Jammed);
            }
        }
        let ghost heard_trigger = sounds@;
        assert(heard_trigger =~= heard_jump + sound_if(self.fire && ready, SoundIdentifier::Shoot)
            + sound_if(self.fire && !ready, SoundIdentifier::Jammed));
        if self.open_latch {
            sounds.push(SoundIdentifier::LatchOpen);
        }
        let ghost heard_opening = sounds@;
        assert(heard_opening =~= heard_trigger + sound_if(
            self.open_latch,
            SoundIdentifier::LatchOpen,
        ));
        if self.close_latch {
            sounds.push(SoundIdentifier::LatchClose);
        }
        let ghost heard_closing = sounds@;
        assert(heard_closing =~= heard_opening + sound_if(
            self.close_latch,
            SoundIdentifier::LatchClose,
        ));
        if self.stand_up {
            sounds.push(SoundIdentifier::Uncrouch);
        }
        let ghost heard_rising = sounds@;
        assert(heard_rising =~= heard_closing + sound_if(self.stand_up, SoundIdentifier::Uncrouch));
        if self.crouch {
            sounds.push(SoundIdentifier::Crouch);
        }
        assert(sounds@ =~= heard_rising + sound_if(self.crouch, SoundIdentifier::Crouch));
        sounds
    }

    /// Reads what the controls ask for off the buffers.
    pub fn poll(input: &Input) -> (intents: Intents)
        ensures
            intents == Intents::of(input@),
    {
        let rising = Fraction { numerator: 7, denominator: 10 };
        let falling = Fraction { numerator: 3, denominator: 10 };
        let movement = if input.is_button_held(MOVE_LEFT) {
            Some(Direction::Left)
        } else if input.is_button_held(MOVE_RIGHT) {
            Some(Direction::Right)
        } else {
            None
        };
        Intents {
            movement,
            jump_held: input.is_button_held(JUMP),
            jump_pressed: input.is_button_pressed(JUMP),
            fire: input.is_button_pressed(FIRE),
            open_latch: input.fraction_reached_limit(
                LATCH_SLIDER,
                rising,
                SliderLimitCheck::Higher,
            ),
            close_latch: input.fraction_reached_limit(
                LATCH_SLIDER,
                falling,
                SliderLimitCheck::Lower,
            ),
            stand_up: input.fraction_reached_limit(
                CROUCH_SLIDER,
                rising,
                SliderLimitCheck::Higher,
            ),
            crouch: input.fraction_reached_limit(
                CROUCH_SLIDER,
                falling,
                SliderLimitCheck::Lower,
            ),
            jump_strength: input.get_fraction(JUMP_STRENGTH_SLIDER),
        }
    }
}

impl PlayerState {
    /// The strength of the impulse that a jump gives now: none in the air.
    pub open spec fn jump_impulse(self) -> Option<Fraction> {
        if self.is_grounded {
            Some(self.jump_strength)
        } else {
            None
        }
    }

    /// The gun after the frame: first the shot, if the trigger was pulled,
    /// then the latch, opened before it is closed.
    pub open spec fn gun_after(self, intents: Intents) -> GunState {
        let shot = if intents.fire {
            self.gun.after_consume()
        } else {
            self.gun
        };
        let opened = if intents.open_latch {
            shot.with_latch(LatchState::Open)
        } else {
            shot
        };
        if intents.close_latch {
            opened.with_latch(LatchState::Closed)
        } else {
            opened
        }
    }

    /// The player after a frame in which the controls ask for `intents`. The
    /// jump strength that the slider shows is taken over for the jumps to
    /// come.
    pub open spec fn after(self, intents: Intents) -> PlayerState {
        PlayerState {
            jump_strength: intents.jump_strength,
            is_grounded: self.is_grounded,
            gun: self.gun_after(intents),
            is_crouching: if intents.crouch {
                true
            } else if intents.stand_up {
                false
            } else {
                self.is_crouching
            },
            is_facing_right: match intents.movement {
                Some(Direction::Left) => false,
                Some(Direction::Right) => true,
                None => self.is_facing_right,
            },
        }
    }

    /// The impulse of the jump that the frame starts, if any: the strength is
    /// the one set before the frame.
    pub open spec fn jump_of_frame(self, intents: Intents) -> Option<Fraction> {
        if intents.jump_held || intents.jump_pressed {
            self.jump_impulse()
        } else {
            None
        }
    }
}

/// The controls' side of the player: what the buttons and sliders act on.
pub struct Player {
    pub jump_strength: Fraction,
    pub is_grounded: bool,
    pub gun: Gun,
    pub is_crouching: bool,
    pub is_facing_right: bool,
}

impl View for Player {
    type V = PlayerState;

    open spec fn view(&self) -> PlayerState {
        PlayerState {
            jump_strength: self.jump_strength,
            is_grounded: self.is_grounded,
            gun: self.gun@,
            is_crouching: self.is_crouching,
            is_facing_right: self.is_facing_right,
        }
    }
}

impl Player {
    /// A player in the air, standing, facing left, with a fresh gun and a jump
    /// strength of one twentieth.
    pub fn new() -> (player: Player)
        ensures
            player@ == (PlayerState {
                jump_strength: Fraction { numerator: 1, denominator: 20 },
                is_grounded: false,
                gun: GunState::fresh(),
                is_crouching: false,
                is_facing_right: false,
            }),
    {
        Player {
            jump_strength: Fraction { numerator: 1, denominator: 20 },
            is_grounded: false,
            gun: Gun::new(),
            is_crouching: false,
            is_facing_right: false,
        }
    }

    /// The strength of the upward impulse that a jump gives now, as a part of
    /// the strongest jump: none while the player is in the air.
    pub fn jump(&self) -> (impulse: Option<Fraction>)
        ensures
            impulse == self@.jump_impulse(),
    {
        if self.is_grounded {
            Some(self.jump_strength)
        } else {
            None
        }
    }

    pub fn set_jump_strength(&mut self, v: Fraction)
        ensures
            final(self)@ == (PlayerState { jump_strength: v, ..old(self)@ }),
    {
        self.jump_strength = v;
    }

    /// Takes the decisions of a frame in which the controls ask for `intents`,
    /// for a player whose sprite shows `current_animation`.
    pub fn act(
        &mut self,
        intents: &Intents,
        current_animation: PlayerAnimationIdentifier,
    ) -> (actions: PlayerActions)
        ensures
            final(self)@ == old(self)@.after(*intents),
            actions.movement == intents.movement,
            actions.jump == old(self)@.jump_of_frame(*intents),
            actions.sounds@ == intents.sounds(old(self).gun@.can_shoot()),
            is_request_for(
                actions.animation,
                intents.action(old(self).gun@.can_shoot()),
                final(self).is_crouching,
                current_animation,
            ),
    {
        let sounds = intents.collect_sounds(self.gun.can_shoot());
        let mut next_action: Option<PlayerAnimationNoStanceIdentifier> = None;
        match intents.movement {
            Some(Direction::Left) => {
                self.is_facing_right = false;
                next_action = Some(PlayerAnimationNoStanceIdentifier::Run);
            },
            Some(Direction::Right) => {
                self.is_facing_right = true;
                next_action = Some(PlayerAnimationNoStanceIdentifier::Run);
            },
            None => {},
        }

        let mut jump: Option<Fraction> = None;
        if intents.jump_held || intents.jump_pressed {
            jump = self.jump();
        }

        if intents.fire {
            match self.gun.try_consume() {
                Ok(()) => {
                    next_action = Some(PlayerAnimationNoStanceIdentifier::Shoot);
                },
                Err(consume_error) => match consume_error {
                    ConsumeError::LatchWasOpen => {
                        next_action = Some(PlayerAnimationNoStanceIdentifier::Jammed);
                    },
                    ConsumeError::NotLoaded => {
                        next_action = Some(PlayerAnimationNoStanceIdentifier::Jammed);
                    },
                },
            }
        }

        if intents.open_latch {
            self.gun.set_latch_state(LatchState::Open);
            next_action = Some(PlayerAnimationNoStanceIdentifier::HatchOpen);
        }
        if intents.close_latch {
            self.gun.set_latch_state(LatchState::Closed);
            next_action = Some(PlayerAnimationNoStanceIdentifier::HatchClose);
        }

        if intents.stand_up {
            self.is_crouching = false;
            next_action = Some(PlayerAnimationNoStanceIdentifier::Idle);
        }
        if intents.crouch {
            self.is_crouching = true;
            next_action = Some(PlayerAnimationNoStanceIdentifier::Idle);
        }

        self.set_jump_strength(intents.jump_strength);

        let animation = match next_action {
            Some(wanted_action) => {
                let wanted = wanted_action.to_animation(self.is_crouching);
                if current_animation != wanted {
                    Some(
                        AnimationRequest {
                            start: wanted,
                            fallback: PlayerAnimationNoStanceIdentifier::Idle.to_animation(
                                self.is_crouching,
                            ),
                        },
                    )
                } else {
                    None
                }
            },
            None => None,
        };
        PlayerActions { movement: intents.movement, jump, sounds, animation }
    }

    /// Takes the decisions of one frame from the input as it stands, for a
    /// player whose sprite shows `current_animation`.
    pub fn process_input(
        &mut self,
        input: &Input,
        current_animation: PlayerAnimationIdentifier,
    ) -> (actions: PlayerActions)
        ensures
            final(self)@ == old(self)@.after(Intents::of(input@)),
            actions.movement == Intents::of(input@).movement,
            actions.jump == old(self)@.jump_of_frame(Intents::of(input@)),
            actions.sounds@ == Intents::of(input@).sounds(old(self).gun@.can_shoot()),
            is_request_for(
                actions.animation,
                Intents::of(input@).action(old(self).gun@.can_shoot()),
                final(self).is_crouching,
                current_animation,
            ),
    {
        let intents = Intents::poll(input);
        self.act(&intents, current_animation)
    }
}

} // verus!
