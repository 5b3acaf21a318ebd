use bevy::time::{Timer, TimerMode};
use std::time::Duration;
use vstd::prelude::*;

use crate::schedule::GameSystem;

verus! {

/// The systems of the animation set.
pub fn system_set() -> (systems: Vec<GameSystem>)
    ensures
        systems@ == seq![GameSystem::AnimatePlayerSprite],
{
    vec![GameSystem::AnimatePlayerSprite]
}

/// Frame of the player's sprite sheet that is shown while the player stands still.
pub const IDLE_FRAME: usize = 8;

/// The frame shown after one animation step: the idle frame while the player
/// does not move; otherwise the next frame, wrapping before the last frame of
/// the sheet, when the animation timer has just finished; else the same frame.
pub open spec fn frame_after_step(index: int, move_direction: int, just_finished: bool, frame_count: int) -> int {
    if move_direction == 0 {
        IDLE_FRAME as int
    } else if just_finished {
        (index + 1) % (frame_count - 1)
    } else {
        index
    }
}

/// Chooses the sprite frame from the player's direction and whether the
/// animation timer finished in this tick.
pub fn next_sprite_frame(sprite_index: usize, move_direction: i32, timer_just_finished: bool, frame_count: usize) -> (frame: usize)
    requires
        move_direction == 0 || !timer_just_finished || (frame_count >= 2 && sprite_index < usize::MAX),
    ensures
        frame == frame_after_step(sprite_index as int, move_direction as int, timer_just_finished, frame_count as int),
        move_direction == 0 ==> frame == 8,
        move_direction != 0 && !timer_just_finished ==> frame == sprite_index,
        move_direction != 0 && timer_just_finished ==> frame == (sprite_index + 1) % (frame_count - 1) as int,
{
    if move_direction == 0 {
        return IDLE_FRAME;
    }
    if timer_just_finished {
        (sprite_index + 1) % (frame_count - 1)
    } else {
        sprite_index
    }
}

/// While the player walks, the animation cycles through the frames before the
/// last frame of the sheet: an advanced frame is always below `frame_count - 1`.
pub proof fn lemma_walk_frames_stay_before_last(index: nat, frame_count: nat)
    requires
        frame_count >= 2,
    ensures
        0 <= frame_after_step(index as int, 1, true, frame_count as int) < frame_count - 1,
        frame_after_step(index as int, -1, true, frame_count as int) == frame_after_step(
            index as int,
            1,
            true,
            frame_count as int,
        ),
{
    vstd::arithmetic::div_mod::lemma_mod_bound((index + 1) as int, frame_count - 1);
}

/// The elapsed time, in nanoseconds, of a repeating timer of period `duration`
/// that stood at `elapsed` and is ticked by `delta`: the sum, or, once the period
/// is reached, what is left of the sum after whole periods (nothing for a period
/// of zero).
pub open spec fn ticked_elapsed(duration: u64, elapsed: u64, delta: u64) -> int {
    let total = elapsed + delta;
    if total >= duration {
        if duration == 0 {
            0
        } else {
            total % (duration as int)
        }
    } else {
        total
    }
}

/// Whether that tick counts as a finish: the period is reached, and the number
/// of whole periods, kept as a `u32` by truncation, is not zero (a period of
/// zero always finishes).
pub open spec fn tick_finishes(duration: u64, elapsed: u64, delta: u64) -> bool {
    let total = elapsed + delta;
    total >= duration && (duration == 0 || (total / (duration as int)) % 0x1_0000_0000 != 0)
}

/// How a running timer of a positive period moves: below the period the time just
/// adds up and the tick does not finish; reaching the period (once, within two
/// periods) finishes the tick and keeps what passed the period; the elapsed time
/// always stays below the period.
pub proof fn lemma_tick_rules(duration: u64, elapsed: u64, delta: u64)
    requires
        duration > 0,
        elapsed < duration,
    ensures
        0 <= ticked_elapsed(duration, elapsed, delta) < duration,
        elapsed + delta < duration ==> !tick_finishes(duration, elapsed, delta) && ticked_elapsed(
            duration,
            elapsed,
            delta,
        ) == elapsed + delta,
        duration <= elapsed + delta < 2 * duration ==> tick_finishes(duration, elapsed, delta)
            && ticked_elapsed(duration, elapsed, delta) == elapsed + delta - duration,
{
    let total: int = elapsed + delta;
    if total >= duration {
        vstd::arithmetic::div_mod::lemma_mod_bound(total, duration as int);
        if total < 2 * duration {
            vstd::arithmetic::div_mod::lemma_fundamental_div_mod(total, duration as int);
            assert(total / (duration as int) == 1) by (nonlinear_arith)
                requires
                    duration as int <= total < 2 * duration,
                    total == (duration as int) * (total / (duration as int)) + total % (duration as int),
                    0 <= total % (duration as int) < duration,
            ;
        }
    }
}

/// Ticks a repeating bevy `Timer` of period `duration_nanos`, standing at
/// `elapsed_nanos`, by `delta_nanos`, with `Timer::tick`, and gives back its new
/// elapsed time and `Timer::just_finished`. The contract restates what
/// `Timer::tick` does for a running repeating timer: the stopwatch adds the delta;
/// once the period is reached, the number of periods is kept as a `u32` and the
/// elapsed time becomes the rest of the division (zero for a period of zero).
/// The sum of two `u64` nanosecond counts stays far below `Duration::MAX`.
#[verifier::external_body]
fn tick_repeating_timer(duration_nanos: u64, elapsed_nanos: u64, delta_nanos: u64) -> (ticked: (
    u64,
    bool,
))
    ensures
        ticked.0 == ticked_elapsed(duration_nanos, elapsed_nanos, delta_nanos),
        ticked.1 == tick_finishes(duration_nanos, elapsed_nanos, delta_nanos),
{
    let mut timer = Timer::new(Duration::from_nanos(duration_nanos), TimerMode::Repeating);
    timer.set_elapsed(Duration::from_nanos(elapsed_nanos));
    timer.tick(Duration::from_nanos(delta_nanos));
    (timer.elapsed().as_nanos() as u64, timer.just_finished())
}

/// How the walk animation moves: standing always shows frame 8; while moving in
/// either direction the frame stays as it is until the timer finishes, and a
/// finished timer moves it one frame on, back to frame 0 after the frame just
/// before the sheet's last one.
pub proof fn lemma_sprite_frame_rules(index: int, move_direction: int, frame_count: int)
    ensures
        frame_after_step(index, 0, true, frame_count) == 8,
        frame_after_step(index, 0, false, frame_count) == 8,
        move_direction != 0 ==> frame_after_step(index, move_direction, false, frame_count) == index,
        move_direction != 0 && frame_count >= 2 && 0 <= index && index + 1 < frame_count - 1
            ==> frame_after_step(index, move_direction, true, frame_count) == index + 1,
        move_direction != 0 && frame_count >= 2 && index + 1 == frame_count - 1
            ==> frame_after_step(index, move_direction, true, frame_count) == 0,
{
    if frame_count >= 2 && 0 <= index && index + 1 < frame_count - 1 {
        vstd::arithmetic::div_mod::lemma_small_mod((index + 1) as nat, (frame_count - 1) as nat);
    }
    if frame_count >= 2 && index + 1 == frame_count - 1 {
        vstd::arithmetic::div_mod::lemma_mod_self_0(frame_count - 1);
    }
}

/// The repeating timer that paces the frames of the player's walk animation:
/// its period and the time elapsed in the current period, in nanoseconds.
pub struct AnimationTimer {
    pub duration_nanos: u64,
    pub elapsed_nanos: u64,
}

impl AnimationTimer {
    /// A timer of the given period that has just started.
    pub fn new(duration_nanos: u64) -> (timer: Self)
        ensures
            timer.duration_nanos == duration_nanos,
            timer.elapsed_nanos == 0,
    {
        AnimationTimer { duration_nanos, elapsed_nanos: 0 }
    }

    /// Whether ticking the timer by `delta_nanos` would finish it; the timer is
    /// left as it is.
    pub fn finishes_after(&self, delta_nanos: u64) -> (finishes: bool)
        ensures
            finishes == tick_finishes(self.duration_nanos, self.elapsed_nanos, delta_nanos),
    {
        tick_repeating_timer(self.duration_nanos, self.elapsed_nanos, delta_nanos).1
    }

    /// Ticks the timer by `delta_nanos`; tells whether the tick finished it.
    pub fn tick(&mut self, delta_nanos: u64) -> (finished: bool)
        ensures
            final(self).duration_nanos == old(self).duration_nanos,
            final(self).elapsed_nanos == ticked_elapsed(
                old(self).duration_nanos,
                old(self).elapsed_nanos,
                delta_nanos,
            ),
            finished == tick_finishes(old(self).duration_nanos, old(self).elapsed_nanos, delta_nanos),
    {
        let (elapsed, finished) = tick_repeating_timer(
            self.duration_nanos,
            self.elapsed_nanos,
            delta_nanos,
        );
        self.elapsed_nanos = elapsed;
        finished
    }
}

/// One step of the player's walk animation: ticks the animation timer by
/// `delta_nanos`, then shows the idle frame while the player stands, the next
/// walk frame when the tick finished the timer, and the same frame otherwise.
pub fn animate_player_sprite(
    timer: &mut AnimationTimer,
    delta_nanos: u64,
    move_direction: i32,
    sprite_index: usize,
    frame_count: usize,
) -> (frame: usize)
    requires
        move_direction == 0 || !tick_finishes(
            old(timer).duration_nanos,
            old(timer).elapsed_nanos,
            delta_nanos,
        ) || (frame_count >= 2 && sprite_index < usize::MAX),
    ensures
        final(timer).duration_nanos == old(timer).duration_nanos,
        final(timer).elapsed_nanos == ticked_elapsed(
            old(timer).duration_nanos,
            old(timer).elapsed_nanos,
            delta_nanos,
        ),
        frame == frame_after_step(
            sprite_index as int,
            move_direction as int,
            tick_finishes(old(timer).duration_nanos, old(timer).elapsed_nanos, delta_nanos),
            frame_count as int,
        ),
{
    let finished = timer.tick(delta_nanos);
    next_sprite_frame(sprite_index, move_direction, finished, frame_count)
}

} // verus!
