//! The shared actor record: every combat-capable entity (the player and each
//! enemy) carries health, a facing direction, an animation state with its
//! frame and frame timer, and a position. The per-tick animation step that
//! drives every actor's sprite lives here.

use vstd::prelude::*;
use crate::combat::Health;
use crate::player::Moving;
use crate::sprite::{
    AnimFrame, AnimState, AnimationIndices, MoveDir, SpriteOutput, spec_next_frame, next_frame,
    spec_state_index,
};
use crate::timer::Timer;

verus! {

/// A position in the level, in tenths of a world unit, so that the walk and
/// run speeds and all distance thresholds stay whole numbers.
#[derive(Clone, Copy, Debug, PartialEq, Eq, Structural)]
pub struct Position {
    pub x: i32,
    pub y: i32,
}

/// The mutable per-actor record.
#[derive(Clone, Copy, Debug)]
pub struct Actor {
    pub health: Health,
    pub anim_state: AnimState,
    pub moving: Moving,
    pub move_dir: MoveDir,
    pub pos: Position,
    pub anim_frame: AnimFrame,
    pub anim_timer: Timer,
}

impl Actor {
    pub open spec fn wf(self) -> bool {
        &&& self.anim_timer.wf()
        &&& self.health.wf()
        &&& self.anim_frame.0 < usize::MAX
    }
}

/// A requested (state, direction) pair had no entry in the animation table:
/// a fatal configuration error, surfaced to be caught at setup or test time.
#[derive(Clone, Copy, Debug, PartialEq, Eq, Structural)]
pub enum AnimError {
    MissingAnimation,
}

/// What one animation step leaves behind when the frame timer has elapsed
/// and the table entry exists.
pub open spec fn spec_animate_hit(a: Actor, indices: AnimationIndices, delta_ms: u32) -> (
    Actor,
    SpriteOutput,
) {
    let info = indices.spec_anim(a.anim_state, a.move_dir)->Some_0;
    let len = info.frames@.len() as int;
    let step = spec_next_frame(
        info.looping,
        len,
        a.anim_frame.0 as int,
        a.anim_state,
        a.health.spec_injured(),
    );
    let next = Actor {
        anim_state: step.1,
        anim_frame: AnimFrame(step.0 as usize),
        anim_timer: Timer {
            duration_ms: indices.timer_duration@[spec_state_index(step.1)],
            elapsed_ms: 0u32,
            repeating: true,
            fired_now: false,
            fired_ever: false,
        },
        ..a
    };
    let out = SpriteOutput {
        sheet: indices.sheet_index@[spec_state_index(step.1)],
        cell: info.frames@[step.0],
        flip_x: info.flip_x,
        flip_y: info.flip_y,
    };
    (next, out)
}

/// One per-tick animation step for an actor.
///
/// The frame timer advances by the elapsed time; while it has not completed,
/// nothing else changes. When it completes, the (state, direction) entry is
/// looked up: a missing entry is the fatal configuration error. Otherwise the
/// frame advances as [`spec_next_frame`] says — looping sequences wrap, a
/// finished non-looping sequence holds the death pose for a `Dead` actor and
/// falls back to `Idle`/`IdleInjured` (by health against max health) for any
/// other — and the frame timer is rearmed with the new state's duration. The
/// returned sprite output carries the new sheet, cell and flip flags.
pub fn animate(a: &mut Actor, indices: &AnimationIndices, delta_ms: u32) -> (r: Result<
    Option<SpriteOutput>,
    AnimError,
>)
    requires
        old(a).wf(),
        indices.wf(),
    ensures
        final(a).wf(),
        ({
            let ticked = old(a).anim_timer.spec_tick(delta_ms);
            if !ticked.spec_just_finished() {
                &&& r == Ok::<Option<SpriteOutput>, AnimError>(None)
                &&& *final(a) == Actor { anim_timer: ticked, ..*old(a) }
            } else if indices.spec_anim(old(a).anim_state, old(a).move_dir) is None {
                &&& r == Err::<Option<SpriteOutput>, AnimError>(AnimError::MissingAnimation)
                &&& *final(a) == Actor { anim_timer: ticked, ..*old(a) }
            } else {
                let (next, out) = spec_animate_hit(*old(a), *indices, delta_ms);
                &&& r == Ok::<Option<SpriteOutput>, AnimError>(Some(out))
                &&& *final(a) == next
            }
        }),
{
    a.anim_timer.tick(delta_ms);
    if !a.anim_timer.just_finished() {
        return Ok(None);
    }
    let info = match indices.get_anim(a.anim_state, a.move_dir) {
        Some(info) => info,
        None => {
            return Err(AnimError::MissingAnimation);
        },
    };
    let len: usize = info.frames.len();
    let step: (usize, AnimState) = next_frame(
        info.looping,
        len,
        a.anim_frame.0,
        a.anim_state,
        a.health.injured(),
    );
    let out = SpriteOutput {
        sheet: indices.get_sheet(step.1),
        cell: info.frames[step.0],
        flip_x: info.flip_x,
        flip_y: info.flip_y,
    };
    a.anim_state = step.1;
    a.anim_frame = AnimFrame(step.0);
    a.anim_timer = Timer::from_millis(indices.get_duration(step.1), true);
    Ok(Some(out))
}

} // verus!
