use vstd::prelude::*;

use crate::anim::{frame_after_step, IDLE_FRAME};
use crate::schedule::GameSystem;

verus! {

/// The horizontal direction of the arrow keys: the left arrow wins over the right one.
pub open spec fn walk_sign(left_pressed: bool, right_pressed: bool) -> int {
    if left_pressed {
        -1
    } else if right_pressed {
        1
    } else {
        0
    }
}

/// The player's move direction as the animation reads it: the walking direction,
/// doubled while running.
pub open spec fn move_direction_of(left_pressed: bool, right_pressed: bool, shift_pressed: bool) -> int {
    if shift_pressed {
        2 * walk_sign(left_pressed, right_pressed)
    } else {
        walk_sign(left_pressed, right_pressed)
    }
}

/// What the arrow keys and Shift make of the player in one frame.
#[derive(Clone, Copy, PartialEq, Eq, Debug)]
pub struct WalkStep {
    /// -1 to the left, 1 to the right, 0 standing.
    pub sign: i32,
    /// The direction that the animation reads: `sign`, doubled while running.
    pub move_direction: i32,
    /// Whether the player runs rather than walks.
    pub running: bool,
}

/// Reads the walking input of one frame: the direction from the arrow keys and
/// whether Shift makes the player run.
pub fn player_run_walk(left_pressed: bool, right_pressed: bool, shift_pressed: bool) -> (step: WalkStep)
    ensures
        step.sign == walk_sign(left_pressed, right_pressed),
        step.move_direction == move_direction_of(left_pressed, right_pressed, shift_pressed),
        step.running == shift_pressed,
        step.sign == (if left_pressed { -1int } else if right_pressed { 1int } else { 0int }),
        step.move_direction == (if shift_pressed { 2 * step.sign } else { step.sign as int }),
{
    let sign: i32 = if left_pressed {
        -1
    } else if right_pressed {
        1
    } else {
        0
    };
    let move_direction: i32 = if shift_pressed {
        2 * sign
    } else {
        sign
    };
    WalkStep { sign, move_direction, running: shift_pressed }
}

/// Whether the player's sprite must be mirrored: when it is moving (`sign`) in the
/// direction that the sign of its horizontal scale points to.
pub fn sprite_needs_flip(sign: i32, scale_x_sign: i32) -> (flip: bool)
    ensures
        flip == (sign as int * scale_x_sign as int > 0),
{
    proof {
        if sign > 0 && scale_x_sign > 0 {
            vstd::arithmetic::mul::lemma_mul_strictly_positive(sign as int, scale_x_sign as int);
        } else if sign < 0 && scale_x_sign < 0 {
            vstd::arithmetic::mul::lemma_mul_strictly_positive(-sign as int, -scale_x_sign as int);
            assert((-sign as int) * (-scale_x_sign as int) == sign as int * scale_x_sign as int) by (nonlinear_arith);
        } else {
            assert(sign as int * scale_x_sign as int <= 0) by (nonlinear_arith)
                requires
                    !(sign > 0 && scale_x_sign > 0),
                    !(sign < 0 && scale_x_sign < 0),
            ;
        }
    }
    (sign > 0 && scale_x_sign > 0) || (sign < 0 && scale_x_sign < 0)
}

/// The player stands still in the animation exactly when no arrow key is held:
/// with neither arrow the idle frame shows whatever the timer does, and with an
/// arrow the move direction is not zero, so the walk frames run.
pub proof fn lemma_idle_without_arrow_keys(
    left_pressed: bool,
    right_pressed: bool,
    shift_pressed: bool,
    sprite_index: int,
    just_finished: bool,
    frame_count: int,
)
    ensures
        !left_pressed && !right_pressed ==> frame_after_step(
            sprite_index,
            move_direction_of(left_pressed, right_pressed, shift_pressed),
            just_finished,
            frame_count,
        ) == IDLE_FRAME,
        (left_pressed || right_pressed) <==> move_direction_of(
            left_pressed,
            right_pressed,
            shift_pressed,
        ) != 0,
        -2 <= move_direction_of(left_pressed, right_pressed, shift_pressed) <= 2,
{
}

/// What the jump test makes of the player in one frame.
#[derive(Clone, Copy, PartialEq, Eq, Debug)]
pub struct JumpStep {
    /// Whether the player jumps this frame.
    pub jump: bool,
    /// Whether the player counts as standing on the ground after the frame.
    pub on_ground: bool,
}

/// Decides the jump of one frame: the player stands on the ground when the
/// ground test found ground under it; pressing Up while standing makes it jump,
/// and a jumping player no longer stands.
pub fn player_jump(ground_found: bool, up_just_pressed: bool) -> (step: JumpStep)
    ensures
        step.jump == (ground_found && up_just_pressed),
        step.on_ground == (ground_found && !up_just_pressed),
{
    let mut on_ground = ground_found;
    let mut jump = false;
    if up_just_pressed && on_ground {
        jump = true;
        on_ground = false;
    }
    JumpStep { jump, on_ground }
}

/// How the keys set the walking direction: the left arrow walks left (also with
/// the right arrow held), the right arrow alone walks right, no arrow stands;
/// the move direction points the same way as the walk and is twice as long
/// exactly while Shift is held and the player moves.
pub proof fn lemma_walk_directions(left_pressed: bool, right_pressed: bool, shift_pressed: bool)
    ensures
        left_pressed ==> walk_sign(left_pressed, right_pressed) == -1,
        !left_pressed && right_pressed ==> walk_sign(left_pressed, right_pressed) == 1,
        !left_pressed && !right_pressed ==> walk_sign(left_pressed, right_pressed) == 0,
        shift_pressed ==> move_direction_of(left_pressed, right_pressed, shift_pressed) == 2
            * walk_sign(left_pressed, right_pressed),
        !shift_pressed ==> move_direction_of(left_pressed, right_pressed, shift_pressed)
            == walk_sign(left_pressed, right_pressed),
        left_pressed && shift_pressed ==> move_direction_of(left_pressed, right_pressed, shift_pressed) == -2,
        !left_pressed && right_pressed && shift_pressed ==> move_direction_of(
            left_pressed,
            right_pressed,
            shift_pressed,
        ) == 2,
        (move_direction_of(left_pressed, right_pressed, shift_pressed) == 2 || move_direction_of(
            left_pressed,
            right_pressed,
            shift_pressed,
        ) == -2) <==> (shift_pressed && (left_pressed || right_pressed)),
{
}

/// The systems of the player set.
pub fn system_set() -> (systems: Vec<GameSystem>)
    ensures
        systems@ == seq![
            GameSystem::PlayerRunWalk,
            GameSystem::PlayerFall,
            GameSystem::ApplyVelToController,
        ],
{
    vec![GameSystem::PlayerRunWalk, GameSystem::PlayerFall, GameSystem::ApplyVelToController]
}

} // verus!
