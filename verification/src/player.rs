//! The player's movement state and how it changes from frame to frame, and
//! the direction the movement keys ask for.
use vstd::prelude::*;

verus! {

/// The player's character.
#[derive(Clone, Copy, Debug)]
pub struct PlayerBody;

/// Gathers the player's behaviour.
#[derive(Clone, Copy, Debug)]
pub struct PlayerPlugin;

/// What the player is doing.
#[derive(Clone, Copy, Debug, PartialEq, Eq, Structural)]
pub enum PlayerMovementState {
    Idle,
    Walking,
    Falling,
}

/// What a frame's decision rests on.
#[derive(Clone, Copy, Debug)]
pub struct MovementInput {
    /// The ground was found right under the player's feet.
    pub grounded: bool,
    /// The jump key went down this frame.
    pub jump_pressed: bool,
    /// The movement keys ask for motion: the squared length of the input
    /// direction is above the walking threshold.
    pub wants_to_move: bool,
    /// The movement keys ask for none: the squared length of the input
    /// direction is below the walking threshold.
    pub wants_to_stop: bool,
}

/// The outcome of a frame's decision.
#[derive(Clone, Copy, Debug)]
pub struct MovementDecision {
    /// The state for the next frame.
    pub next: PlayerMovementState,
    /// The player jumps: its vertical speed is set to the jump speed.
    pub jump: bool,
}

/// The decision of a frame in which the player is in state `state`.
pub open spec fn next_movement(state: PlayerMovementState, input: MovementInput) -> MovementDecision {
    match state {
        PlayerMovementState::Idle => if !input.grounded {
            MovementDecision { next: PlayerMovementState::Falling, jump: false }
        } else if input.jump_pressed {
            MovementDecision { next: PlayerMovementState::Falling, jump: true }
        } else if input.wants_to_move {
            MovementDecision { next: PlayerMovementState::Walking, jump: false }
        } else {
            MovementDecision { next: PlayerMovementState::Idle, jump: false }
        },
        PlayerMovementState::Walking => if !input.grounded {
            MovementDecision { next: PlayerMovementState::Falling, jump: false }
        } else if input.jump_pressed {
            MovementDecision { next: PlayerMovementState::Falling, jump: true }
        } else if input.wants_to_stop {
            MovementDecision { next: PlayerMovementState::Idle, jump: false }
        } else {
            MovementDecision { next: PlayerMovementState::Walking, jump: false }
        },
        PlayerMovementState::Falling => if input.grounded {
            MovementDecision { next: PlayerMovementState::Idle, jump: false }
        } else {
            MovementDecision { next: PlayerMovementState::Falling, jump: false }
        },
    }
}

/// Whether the player is in state `check`: the condition under which the
/// behaviour of that state runs.
pub fn is_player_state(current: PlayerMovementState, check: PlayerMovementState) -> (b: bool)
    ensures
        b == (current == check),
{
    current == check
}

/// The decision of a frame in which the player stands still: it falls off
/// where the ground is gone, jumps where the jump key went down, and starts
/// walking where the movement keys ask for motion.
pub fn idle(input: MovementInput) -> (d: MovementDecision)
    ensures
        d == next_movement(PlayerMovementState::Idle, input),
{
    if !input.grounded {
        return MovementDecision { next: PlayerMovementState::Falling, jump: false };
    }
    if input.grounded && input.jump_pressed {
        return MovementDecision { next: PlayerMovementState::Falling, jump: true };
    }
    if input.wants_to_move {
        return MovementDecision { next: PlayerMovementState::Walking, jump: false };
    }
    MovementDecision { next: PlayerMovementState::Idle, jump: false }
}

/// The decision of a frame in which the player walks: it falls off where the
/// ground is gone, jumps where the jump key went down, and stops where the
/// movement keys ask for no motion.
pub fn walk(input: MovementInput) -> (d: MovementDecision)
    ensures
        d == next_movement(PlayerMovementState::Walking, input),
{
    if !input.grounded {
        return MovementDecision { next: PlayerMovementState::Falling, jump: false };
    }
    if input.grounded && input.jump_pressed {
        return MovementDecision { next: PlayerMovementState::Falling, jump: true };
    }
    if input.wants_to_stop {
        return MovementDecision { next: PlayerMovementState::Idle, jump: false };
    }
    MovementDecision { next: PlayerMovementState::Walking, jump: false }
}

/// The decision of a frame in which the player falls: it lands where the
/// ground is under its feet.
pub fn fall(input: MovementInput) -> (d: MovementDecision)
    ensures
        d == next_movement(PlayerMovementState::Falling, input),
{
    if input.grounded {
        return MovementDecision { next: PlayerMovementState::Idle, jump: false };
    }
    MovementDecision { next: PlayerMovementState::Falling, jump: false }
}

/// The decision of a frame: runs the behaviour of the state the player is
/// in.
pub fn update_movement(state: PlayerMovementState, input: MovementInput) -> (d: MovementDecision)
    ensures
        d == next_movement(state, input),
{
    if is_player_state(state, PlayerMovementState::Idle) {
        idle(input)
    } else if is_player_state(state, PlayerMovementState::Walking) {
        walk(input)
    } else {
        fall(input)
    }
}

/// Without ground under its feet the player is falling in the next frame,
/// whatever it was doing.
pub proof fn lemma_no_ground_means_falling(state: PlayerMovementState, input: MovementInput)
    requires
        !input.grounded,
    ensures
        next_movement(state, input).next == PlayerMovementState::Falling,
        !next_movement(state, input).jump,
{
}

/// The player jumps only from the ground, only where the jump key went
/// down, never while falling, and a jump puts it in the falling state.
pub proof fn lemma_jump_only_from_ground(state: PlayerMovementState, input: MovementInput)
    requires
        next_movement(state, input).jump,
    ensures
        input.grounded,
        input.jump_pressed,
        state != PlayerMovementState::Falling,
        next_movement(state, input).next == PlayerMovementState::Falling,
{
}

/// A standing or walking player on the ground that presses jump always
/// jumps.
pub proof fn lemma_jump_from_ground(state: PlayerMovementState, input: MovementInput)
    requires
        state != PlayerMovementState::Falling,
        input.grounded,
        input.jump_pressed,
    ensures
        next_movement(state, input).jump,
{
}

/// A falling player lands in the standing state exactly when the ground is
/// under its feet; it never starts walking straight from a fall.
pub proof fn lemma_landing(input: MovementInput)
    ensures
        (next_movement(PlayerMovementState::Falling, input).next == PlayerMovementState::Idle)
            == input.grounded,
        next_movement(PlayerMovementState::Falling, input).next != PlayerMovementState::Walking,
{
}

/// On the ground and without a jump, the player stays on the ground: it
/// does not enter the falling state.
pub proof fn lemma_grounded_stays_grounded(state: PlayerMovementState, input: MovementInput)
    requires
        input.grounded,
        !input.jump_pressed,
    ensures
        next_movement(state, input).next != PlayerMovementState::Falling,
{
}

/// A player on the ground whose movement keys ask neither for motion nor
/// for none (the input sits on the threshold) keeps its state.
pub proof fn lemma_threshold_keeps_state(state: PlayerMovementState, input: MovementInput)
    requires
        input.grounded,
        !input.jump_pressed,
        !input.wants_to_move,
        !input.wants_to_stop,
    ensures
        next_movement(state, input).next == (if state == PlayerMovementState::Falling {
            PlayerMovementState::Idle
        } else {
            state
        }),
{
}

/// The movement keys held down in a frame.
#[derive(Clone, Copy, Debug)]
pub struct MovementKeys {
    pub right: bool,
    pub left: bool,
    pub forward: bool,
    pub back: bool,
}

/// The direction the movement keys ask for, before it is normalised: `x`
/// to the right, `y` forward, each -1, 0 or 1.
#[derive(Clone, Copy, Debug, PartialEq, Eq, Structural)]
pub struct InputAxes {
    pub x: i8,
    pub y: i8,
}

/// The value a key adds to an axis.
pub open spec fn key_value(pressed: bool) -> int {
    if pressed {
        1
    } else {
        0
    }
}

/// The direction the movement keys ask for: right minus left, forward
/// minus back.
pub fn input_axes(keys: MovementKeys) -> (axes: InputAxes)
    ensures
        axes.x == key_value(keys.right) - key_value(keys.left),
        axes.y == key_value(keys.forward) - key_value(keys.back),
{
    let mut x: i8 = 0;
    if keys.right {
        x = x + 1;
    }
    if keys.left {
        x = x - 1;
    }
    let mut y: i8 = 0;
    if keys.forward {
        y = y + 1;
    }
    if keys.back {
        y = y - 1;
    }
    InputAxes { x, y }
}

impl InputAxes {
    /// Whether the direction has length zero, so that it cannot be
    /// normalised and stays as it is.
    pub fn is_zero(&self) -> (b: bool)
        ensures
            b == (self.x == 0 && self.y == 0),
    {
        self.x == 0 && self.y == 0
    }
}

} // verus!
