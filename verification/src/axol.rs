//! The axol enemy: its record, its spawn values, and the animation table for
//! the alien sprite sheet.

use vstd::prelude::*;
use crate::actor::{Actor, Position};
use crate::combat::{AttackCooldown, Health};
use crate::player::Moving;
use crate::sprite::{
    AnimFrame, AnimState, AnimationDirection, AnimationIndices, MoveDir, spec_row,
    spec_state_index,
};
use crate::timer::Timer;

verus! {

/// One spawned enemy. The bite cooldown and the despawn-grace delay are two
/// explicit timers: the cooldown keeps rearming while the enemy lives, the
/// grace timer is armed once at death and measures how long the corpse stays
/// while its death animation plays.
#[derive(Clone, Copy, Debug)]
pub struct Axol {
    pub actor: Actor,
    pub cooldown: AttackCooldown,
    pub despawn_grace: Option<Timer>,
}

impl Axol {
    pub open spec fn wf(self) -> bool {
        &&& self.actor.wf()
        &&& self.cooldown.0.wf()
        &&& self.cooldown.0.repeating
        &&& (self.despawn_grace matches Some(t) ==> t.wf())
    }
}

/// Starting health of an axol.
pub const AXOL_MAX_HEALTH: u8 = 20;

/// Frame timer duration an axol starts with, in milliseconds.
pub const AXOL_ANIM_MS: u32 = 800;

/// Where axols are spawned, in tenths of a world unit.
pub const AXOL_SPAWN_X: i32 = 6050;

pub const AXOL_SPAWN_Y: i32 = 6200;

/// Least time between two bite attempts of one axol, in milliseconds.
pub const BITE_COOLDOWN_MS: u32 = 1500;

/// Time a dead axol lingers while its death animation plays, in
/// milliseconds.
pub const DESPAWN_GRACE_MS: u32 = 8000;

/// The record of a freshly spawned axol: full health, idle, facing left, at
/// the fixed spawn point, bite cooldown running, no despawn grace armed.
pub open spec fn spec_new_axol() -> Axol {
    Axol {
        actor: Actor {
            health: Health(AXOL_MAX_HEALTH as i8, AXOL_MAX_HEALTH),
            anim_state: AnimState::Idle,
            moving: Moving(false),
            move_dir: MoveDir::Left,
            pos: Position { x: AXOL_SPAWN_X, y: AXOL_SPAWN_Y },
            anim_frame: AnimFrame(0),
            anim_timer: Timer {
                duration_ms: AXOL_ANIM_MS,
                elapsed_ms: 0u32,
                repeating: true,
                fired_now: false,
                fired_ever: false,
            },
        },
        cooldown: AttackCooldown(
            Timer {
                duration_ms: BITE_COOLDOWN_MS,
                elapsed_ms: 0u32,
                repeating: true,
                fired_now: false,
                fired_ever: false,
            },
        ),
        despawn_grace: None,
    }
}

/// A freshly spawned axol: full health, idle, facing left, at the fixed
/// spawn point, bite cooldown running, no despawn grace armed.
pub fn setup_axol() -> (a: Axol)
    ensures
        a == spec_new_axol(),
        a.wf(),
        a.actor.health == Health(AXOL_MAX_HEALTH as i8, AXOL_MAX_HEALTH),
        a.actor.anim_state == AnimState::Idle,
        a.actor.moving == Moving(false),
        a.actor.move_dir == MoveDir::Left,
        a.actor.pos == (Position { x: AXOL_SPAWN_X, y: AXOL_SPAWN_Y }),
        a.actor.anim_frame == AnimFrame(0),
        a.actor.anim_timer == (Timer {
            duration_ms: AXOL_ANIM_MS,
            elapsed_ms: 0u32,
            repeating: true,
            fired_now: false,
            fired_ever: false,
        }),
        a.cooldown.0 == (Timer {
            duration_ms: BITE_COOLDOWN_MS,
            elapsed_ms: 0u32,
            repeating: true,
            fired_now: false,
            fired_ever: false,
        }),
        a.despawn_grace is None,
{
    Axol {
        actor: Actor {
            health: Health(AXOL_MAX_HEALTH as i8, AXOL_MAX_HEALTH),
            anim_state: AnimState::Idle,
            moving: Moving(false),
            move_dir: MoveDir::Left,
            pos: Position { x: AXOL_SPAWN_X, y: AXOL_SPAWN_Y },
            anim_frame: AnimFrame(0),
            anim_timer: Timer::from_millis(AXOL_ANIM_MS, true),
        },
        cooldown: AttackCooldown(Timer::from_millis(BITE_COOLDOWN_MS, true)),
        despawn_grace: None,
    }
}

/// The full axol animation table, row by row: exactly which frames each
/// (state, direction) pair plays, its flip and playback policy, and the
/// per-state sheet and frame-timing rows. Idle, injured idle, walking and
/// death reuse the left-facing cells mirrored when facing right; running
/// has no row in the alien sheet — that pair is unreachable for enemies,
/// and a lookup for it reports the fatal configuration error.
pub open spec fn spec_axol_anim_shape(t: AnimationIndices) -> bool {
    &&& t.wf()
    &&& spec_row(t.spec_anim(AnimState::Idle, MoveDir::Up), seq![0usize, 1], false, true)
    &&& spec_row(t.spec_anim(AnimState::Idle, MoveDir::Down), seq![0usize, 1], false, true)
    &&& spec_row(t.spec_anim(AnimState::Idle, MoveDir::Left), seq![0usize, 1], false, true)
    &&& spec_row(t.spec_anim(AnimState::Idle, MoveDir::Right), seq![0usize, 1], true, true)
    &&& spec_row(t.spec_anim(AnimState::IdleInjured, MoveDir::Up), seq![2usize, 3], false, true)
    &&& spec_row(t.spec_anim(AnimState::IdleInjured, MoveDir::Down), seq![2usize, 3], false, true)
    &&& spec_row(t.spec_anim(AnimState::IdleInjured, MoveDir::Left), seq![2usize, 3], false, true)
    &&& spec_row(t.spec_anim(AnimState::IdleInjured, MoveDir::Right), seq![2usize, 3], true, true)
    &&& spec_row(t.spec_anim(AnimState::Walk, MoveDir::Up), seq![0usize, 1], false, true)
    &&& spec_row(t.spec_anim(AnimState::Walk, MoveDir::Down), seq![0usize, 1], false, true)
    &&& spec_row(t.spec_anim(AnimState::Walk, MoveDir::Left), seq![0usize, 1], false, true)
    &&& spec_row(t.spec_anim(AnimState::Walk, MoveDir::Right), seq![0usize, 1], true, true)
    &&& t.spec_anim(AnimState::Run, MoveDir::Up) is None
    &&& t.spec_anim(AnimState::Run, MoveDir::Down) is None
    &&& t.spec_anim(AnimState::Run, MoveDir::Left) is None
    &&& t.spec_anim(AnimState::Run, MoveDir::Right) is None
    &&& spec_row(
        t.spec_anim(AnimState::Attack, MoveDir::Up),
        seq![5usize, 6, 7, 8, 9],
        false,
        false,
    )
    &&& spec_row(
        t.spec_anim(AnimState::Attack, MoveDir::Down),
        seq![5usize, 6, 7, 8, 9],
        false,
        false,
    )
    &&& spec_row(
        t.spec_anim(AnimState::Attack, MoveDir::Left),
        seq![5usize, 6, 7, 8, 9],
        false,
        false,
    )
    &&& spec_row(
        t.spec_anim(AnimState::Attack, MoveDir::Right),
        seq![5usize, 6, 7, 8, 9],
        false,
        false,
    )
    &&& spec_row(
        t.spec_anim(AnimState::AttackInjured, MoveDir::Up),
        seq![20usize, 21, 22, 23, 24],
        false,
        false,
    )
    &&& spec_row(
        t.spec_anim(AnimState::AttackInjured, MoveDir::Down),
        seq![20usize, 21, 22, 23, 24],
        false,
        false,
    )
    &&& spec_row(
        t.spec_anim(AnimState::AttackInjured, MoveDir::Left),
        seq![20usize, 21, 22, 23, 24],
        false,
        false,
    )
    &&& spec_row(
        t.spec_anim(AnimState::AttackInjured, MoveDir::Right),
        seq![20usize, 21, 22, 23, 24],
        false,
        false,
    )
    &&& spec_row(
        t.spec_anim(AnimState::Dead, MoveDir::Up),
        seq![15usize, 16, 17, 18, 19],
        false,
        false,
    )
    &&& spec_row(
        t.spec_anim(AnimState::Dead, MoveDir::Down),
        seq![15usize, 16, 17, 18, 19],
        false,
        false,
    )
    &&& spec_row(
        t.spec_anim(AnimState::Dead, MoveDir::Left),
        seq![15usize, 16, 17, 18, 19],
        false,
        false,
    )
    &&& spec_row(
        t.spec_anim(AnimState::Dead, MoveDir::Right),
        seq![15usize, 16, 17, 18, 19],
        true,
        false,
    )
    &&& t.timer_duration@[spec_state_index(AnimState::Idle)] == 800
    &&& t.timer_duration@[spec_state_index(AnimState::IdleInjured)] == 800
    &&& t.timer_duration@[spec_state_index(AnimState::Walk)] == 800
    &&& t.timer_duration@[spec_state_index(AnimState::Attack)] == 80
    &&& t.timer_duration@[spec_state_index(AnimState::AttackInjured)] == 80
    &&& t.timer_duration@[spec_state_index(AnimState::Dead)] == 400
    &&& t.sheet_index@[spec_state_index(AnimState::Idle)] == 4
    &&& t.sheet_index@[spec_state_index(AnimState::IdleInjured)] == 4
    &&& t.sheet_index@[spec_state_index(AnimState::Walk)] == 4
    &&& t.sheet_index@[spec_state_index(AnimState::Attack)] == 4
    &&& t.sheet_index@[spec_state_index(AnimState::AttackInjured)] == 4
    &&& t.sheet_index@[spec_state_index(AnimState::Dead)] == 4
}

fn axol_row(frames: Vec<usize>, flip_x: bool, looping: bool) -> (a: AnimationDirection)
    requires
        frames@.len() >= 1,
    ensures
        a == (AnimationDirection { frames, flip_x, flip_y: false, looping }),
        a.wf(),
{
    AnimationDirection { frames, flip_x, flip_y: false, looping }
}

/// The read-only animation table for the axol, built once at actor-type
/// setup: exactly the rows that [`spec_axol_anim_shape`] pins.
#[verifier::rlimit(100)]
pub fn setup_axol_animations() -> (t: AnimationIndices)
    ensures
        spec_axol_anim_shape(t),
{
    let mut t = AnimationIndices::empty();

    t.set_state_row(AnimState::Idle, 4, 800);
    t.set_anim(AnimState::Idle, MoveDir::Up, axol_row(vec![0, 1], false, true));
    t.set_anim(AnimState::Idle, MoveDir::Down, axol_row(vec![0, 1], false, true));
    t.set_anim(AnimState::Idle, MoveDir::Left, axol_row(vec![0, 1], false, true));
    t.set_anim(AnimState::Idle, MoveDir::Right, axol_row(vec![0, 1], true, true));

    t.set_state_row(AnimState::IdleInjured, 4, 800);
    t.set_anim(AnimState::IdleInjured, MoveDir::Up, axol_row(vec![2, 3], false, true));
    t.set_anim(AnimState::IdleInjured, MoveDir::Down, axol_row(vec![2, 3], false, true));
    t.set_anim(AnimState::IdleInjured, MoveDir::Left, axol_row(vec![2, 3], false, true));
    t.set_anim(AnimState::IdleInjured, MoveDir::Right, axol_row(vec![2, 3], true, true));

    t.set_state_row(AnimState::Walk, 4, 800);
    t.set_anim(AnimState::Walk, MoveDir::Up, axol_row(vec![0, 1], false, true));
    t.set_anim(AnimState::Walk, MoveDir::Down, axol_row(vec![0, 1], false, true));
    t.set_anim(AnimState::Walk, MoveDir::Left, axol_row(vec![0, 1], false, true));
    t.set_anim(AnimState::Walk, MoveDir::Right, axol_row(vec![0, 1], true, true));

    t.set_state_row(AnimState::Attack, 4, 80);
    t.set_anim(AnimState::Attack, MoveDir::Up, axol_row(vec![5, 6, 7, 8, 9], false, false));
    t.set_anim(AnimState::Attack, MoveDir::Down, axol_row(vec![5, 6, 7, 8, 9], false, false));
    t.set_anim(AnimState::Attack, MoveDir::Left, axol_row(vec![5, 6, 7, 8, 9], false, false));
    t.set_anim(AnimState::Attack, MoveDir::Right, axol_row(vec![5, 6, 7, 8, 9], false, false));

    t.set_state_row(AnimState::AttackInjured, 4, 80);
    t.set_anim(
        AnimState::AttackInjured,
        MoveDir::Up,
        axol_row(vec![20, 21, 22, 23, 24], false, false),
    );
    t.set_anim(
        AnimState::AttackInjured,
        MoveDir::Down,
        axol_row(vec![20, 21, 22, 23, 24], false, false),
    );
    t.set_anim(
        AnimState::AttackInjured,
        MoveDir::Left,
        axol_row(vec![20, 21, 22, 23, 24], false, false),
    );
    t.set_anim(
        AnimState::AttackInjured,
        MoveDir::Right,
        axol_row(vec![20, 21, 22, 23, 24], false, false),
    );

    t.set_state_row(AnimState::Dead, 4, 400);
    t.set_anim(AnimState::Dead, MoveDir::Up, axol_row(vec![15, 16, 17, 18, 19], false, false));
    t.set_anim(AnimState::Dead, MoveDir::Down, axol_row(vec![15, 16, 17, 18, 19], false, false));
    t.set_anim(AnimState::Dead, MoveDir::Left, axol_row(vec![15, 16, 17, 18, 19], false, false));
    t.set_anim(AnimState::Dead, MoveDir::Right, axol_row(vec![15, 16, 17, 18, 19], true, false));

    t
}

} // verus!
