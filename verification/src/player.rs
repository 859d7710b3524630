//! The player character: its record, its spawn values, the animation table
//! for the warrior sprite sheets, and the per-tick input decision that turns
//! raw key states into movement or attack intents.

use vstd::prelude::*;
use crate::actor::{Actor, Position};
use crate::combat::Health;
use crate::nowalk::LevelNoWalk;
use crate::player_movement::{RUN_SPEED, WALK_SPEED, spec_dest, spec_walkable};
use crate::sprite::{AnimFrame, AnimState, AnimationDirection, AnimationIndices, MoveDir,
    spec_row, spec_state_index};
use crate::timer::Timer;

verus! {

/// Whether the actor moved this tick.
#[derive(Clone, Copy, Debug, PartialEq, Eq, Structural)]
pub struct Moving(pub bool);

/// The player character.
#[derive(Clone, Copy, Debug)]
pub struct Player {
    pub actor: Actor,
}

impl Player {
    pub open spec fn wf(self) -> bool {
        self.actor.wf()
    }
}

/// Starting health of the player.
pub const PLAYER_MAX_HEALTH: u8 = 20;

/// Frame timer duration the player starts with, in milliseconds.
pub const PLAYER_ANIM_MS: u32 = 200;

/// Where the player appears, in tenths of a world unit.
pub const PLAYER_SPAWN_X: i32 = 5000;

pub const PLAYER_SPAWN_Y: i32 = 5000;

/// The record of the player as spawned when a game starts: full health,
/// idle, facing right, at the fixed spawn point.
pub open spec fn spec_new_player() -> Player {
    Player {
        actor: Actor {
            health: Health(PLAYER_MAX_HEALTH as i8, PLAYER_MAX_HEALTH),
            anim_state: AnimState::Idle,
            moving: Moving(false),
            move_dir: MoveDir::Right,
            pos: Position { x: PLAYER_SPAWN_X, y: PLAYER_SPAWN_Y },
            anim_frame: AnimFrame(0),
            anim_timer: Timer {
                duration_ms: PLAYER_ANIM_MS,
                elapsed_ms: 0u32,
                repeating: true,
                fired_now: false,
                fired_ever: false,
            },
        },
    }
}

/// The player as spawned when a game starts: full health, idle, facing
/// right, at the fixed spawn point. The player is created once per session
/// and reset, not recreated, on respawn.
pub fn setup_player() -> (p: Player)
    ensures
        p == spec_new_player(),
        p.wf(),
        p.actor.health == Health(PLAYER_MAX_HEALTH as i8, PLAYER_MAX_HEALTH),
        p.actor.anim_state == AnimState::Idle,
        p.actor.moving == Moving(false),
        p.actor.move_dir == MoveDir::Right,
        p.actor.pos == (Position { x: PLAYER_SPAWN_X, y: PLAYER_SPAWN_Y }),
        p.actor.anim_frame == AnimFrame(0),
        p.actor.anim_timer == (Timer {
            duration_ms: PLAYER_ANIM_MS,
            elapsed_ms: 0u32,
            repeating: true,
            fired_now: false,
            fired_ever: false,
        }),
{
    Player {
        actor: Actor {
            health: Health(PLAYER_MAX_HEALTH as i8, PLAYER_MAX_HEALTH),
            anim_state: AnimState::Idle,
            moving: Moving(false),
            move_dir: MoveDir::Right,
            pos: Position { x: PLAYER_SPAWN_X, y: PLAYER_SPAWN_Y },
            anim_frame: AnimFrame(0),
            anim_timer: Timer::from_millis(PLAYER_ANIM_MS, true),
        },
    }
}

/// The boolean key and button states a tick's input decision reads.
#[derive(Clone, Copy, Debug, PartialEq, Eq, Structural)]
pub struct InputState {
    /// Attack was just pressed this tick.
    pub attack: bool,
    pub up: bool,
    pub down: bool,
    pub left: bool,
    pub right: bool,
    /// The run modifier is held.
    pub shift: bool,
    /// Start was just pressed (leaves the splash screen).
    pub start: bool,
    /// Pause was just pressed.
    pub pause: bool,
}

impl InputState {
    /// No key or button active.
    pub fn none() -> (r: InputState)
        ensures
            r == (InputState {
                attack: false,
                up: false,
                down: false,
                left: false,
                right: false,
                shift: false,
                start: false,
                pause: false,
            }),
    {
        InputState {
            attack: false,
            up: false,
            down: false,
            left: false,
            right: false,
            shift: false,
            start: false,
            pause: false,
        }
    }
}

/// What the input decision asks the rest of the tick to do.
#[derive(Clone, Copy, Debug, PartialEq, Eq, Structural)]
pub struct InputIntents {
    /// Swing the sword this tick.
    pub swing: bool,
    /// Take one walking step in this direction.
    pub walk: Option<MoveDir>,
    /// Take one running step in this direction.
    pub run: Option<MoveDir>,
}

/// The direction the held keys select, in the fixed priority up, down,
/// left, right; with none held, the current facing is kept.
pub open spec fn spec_input_dir(input: InputState, cur: MoveDir) -> MoveDir {
    if input.up {
        MoveDir::Up
    } else if input.down {
        MoveDir::Down
    } else if input.left {
        MoveDir::Left
    } else if input.right {
        MoveDir::Right
    } else {
        cur
    }
}

pub open spec fn spec_input_moving(input: InputState) -> bool {
    input.up || input.down || input.left || input.right
}

/// Whether this tick's input starts a sword swing: an attack press while
/// the player is not dead.
pub open spec fn spec_swings(p: Player, input: InputState) -> bool {
    p.actor.anim_state != AnimState::Dead && input.attack
}

/// The player after the input decision and the movement phase of one tick:
/// the record [`handle_input`] leaves, with the requested walking or
/// running step taken through the walkability gate.
pub open spec fn spec_player_after_input(p: Player, input: InputState, nw: LevelNoWalk) -> Player {
    if p.actor.anim_state == AnimState::Dead {
        p
    } else if input.attack {
        Player {
            actor: Actor {
                anim_state: AnimState::Attack,
                anim_frame: AnimFrame(0),
                moving: Moving(false),
                ..p.actor
            },
        }
    } else if p.actor.anim_state == AnimState::Attack {
        Player { actor: Actor { moving: Moving(false), ..p.actor } }
    } else if spec_input_moving(input) {
        let nd = spec_input_dir(input, p.actor.move_dir);
        let speed: i32 = if input.shift {
            RUN_SPEED
        } else {
            WALK_SPEED
        };
        let dest = spec_dest(p.actor.pos, nd, speed);
        let pos = if spec_walkable(nw, dest) {
            dest
        } else {
            p.actor.pos
        };
        Player {
            actor: Actor {
                anim_state: if input.shift {
                    AnimState::Run
                } else {
                    AnimState::Walk
                },
                moving: Moving(true),
                move_dir: nd,
                pos,
                ..p.actor
            },
        }
    } else {
        Player {
            actor: Actor {
                anim_state: if p.actor.health.spec_injured() {
                    AnimState::IdleInjured
                } else {
                    AnimState::Idle
                },
                moving: Moving(false),
                ..p.actor
            },
        }
    }
}

/// Turn this tick's key states into the player's new animation state and
/// movement or attack intents.
///
/// A dead player ignores input entirely. An attack press interrupts
/// anything else: the attack animation restarts at frame 0 and a swing is
/// requested. While the attack animation is still playing, movement input is
/// ignored. Otherwise a held direction key turns the player and requests a
/// walking step, or a running one with the run modifier held; with no key
/// held the player falls back to idle, injured idle when below full health.
pub fn handle_input(p: &mut Player, input: InputState) -> (intents: InputIntents)
    requires
        old(p).wf(),
    ensures
        final(p).wf(),
        old(p).actor.anim_state == AnimState::Dead ==> *final(p) == *old(p) && intents == (
        InputIntents { swing: false, walk: None, run: None }),
        old(p).actor.anim_state != AnimState::Dead && input.attack ==> final(p).actor == (Actor {
            anim_state: AnimState::Attack,
            anim_frame: AnimFrame(0),
            moving: Moving(false),
            ..old(p).actor
        }) && intents == (InputIntents { swing: true, walk: None, run: None }),
        old(p).actor.anim_state == AnimState::Attack && !input.attack ==> final(p).actor == (
        Actor { moving: Moving(false), ..old(p).actor }) && intents == (InputIntents {
            swing: false,
            walk: None,
            run: None,
        }),
        ({
            let moved = spec_input_moving(input);
            let nd = spec_input_dir(input, old(p).actor.move_dir);
            (old(p).actor.anim_state != AnimState::Dead && old(p).actor.anim_state
                != AnimState::Attack && !input.attack) ==> if moved {
                if input.shift {
                    final(p).actor == (Actor {
                        anim_state: AnimState::Run,
                        moving: Moving(true),
                        move_dir: nd,
                        ..old(p).actor
                    }) && intents == (InputIntents { swing: false, walk: None, run: Some(nd) })
                } else {
                    final(p).actor == (Actor {
                        anim_state: AnimState::Walk,
                        moving: Moving(true),
                        move_dir: nd,
                        ..old(p).actor
                    }) && intents == (InputIntents { swing: false, walk: Some(nd), run: None })
                }
            } else {
                final(p).actor == (Actor {
                    anim_state: if old(p).actor.health.spec_injured() {
                        AnimState::IdleInjured
                    } else {
                        AnimState::Idle
                    },
                    moving: Moving(false),
                    ..old(p).actor
                }) && intents == (InputIntents { swing: false, walk: None, run: None })
            }
        }),
{
    if matches!(p.actor.anim_state, AnimState::Dead) {
        return InputIntents { swing: false, walk: None, run: None };
    }
    let mut intents = InputIntents { swing: false, walk: None, run: None };
    let mut dir_facing: MoveDir = p.actor.move_dir;
    let mut is_moving: bool = false;
    if input.attack {
        p.actor.anim_state = AnimState::Attack;
        p.actor.anim_frame = AnimFrame(0);
        intents.swing = true;
    } else if !matches!(p.actor.anim_state, AnimState::Attack) {
        if input.up {
            dir_facing = MoveDir::Up;
            is_moving = true;
        } else if input.down {
            dir_facing = MoveDir::Down;
            is_moving = true;
        } else if input.left {
            dir_facing = MoveDir::Left;
            is_moving = true;
        } else if input.right {
            dir_facing = MoveDir::Right;
            is_moving = true;
        }
        if is_moving {
            if input.shift {
                p.actor.anim_state = AnimState::Run;
                intents.run = Some(dir_facing);
            } else {
                p.actor.anim_state = AnimState::Walk;
                intents.walk = Some(dir_facing);
            }
        } else {
            if p.actor.health.injured() {
                p.actor.anim_state = AnimState::IdleInjured;
            } else {
                p.actor.anim_state = AnimState::Idle;
            }
        }
    }
    p.actor.moving = Moving(is_moving);
    p.actor.move_dir = dir_facing;
    intents
}

/// The full player animation table, row by row: exactly which frames each
/// (state, direction) pair plays, its flip and playback policy, and the
/// per-state sheet and frame-timing rows. The warrior sheets have no
/// injured-attack row — that pair is unreachable for the player, and a
/// lookup for it reports the fatal configuration error.
pub open spec fn spec_player_anim_shape(t: AnimationIndices) -> bool {
    &&& t.wf()
    &&& spec_row(
        t.spec_anim(AnimState::Idle, MoveDir::Up),
        seq![30usize, 31, 32, 33, 34, 35, 36, 37, 38, 39],
        false,
        true,
    )
    &&& spec_row(
        t.spec_anim(AnimState::Idle, MoveDir::Down),
        seq![20usize, 21, 22, 23, 24, 25, 26, 27, 28, 29],
        false,
        true,
    )
    &&& spec_row(
        t.spec_anim(AnimState::Idle, MoveDir::Left),
        seq![10usize, 11, 12, 13, 14, 15, 16, 17, 18, 19],
        false,
        true,
    )
    &&& spec_row(
        t.spec_anim(AnimState::Idle, MoveDir::Right),
        seq![0usize, 1, 2, 3, 4, 5, 6, 7, 8, 9],
        false,
        true,
    )
    &&& spec_row(
        t.spec_anim(AnimState::IdleInjured, MoveDir::Up),
        seq![70usize, 71, 72, 73, 74, 75, 76, 77, 78, 79],
        false,
        true,
    )
    &&& spec_row(
        t.spec_anim(AnimState::IdleInjured, MoveDir::Down),
        seq![60usize, 61, 62, 63, 64, 65, 66, 67, 68, 69],
        false,
        true,
    )
    &&& spec_row(
        t.spec_anim(AnimState::IdleInjured, MoveDir::Left),
        seq![50usize, 51, 52, 53, 54, 55, 56, 57, 58, 59],
        false,
        true,
    )
    &&& spec_row(
        t.spec_anim(AnimState::IdleInjured, MoveDir::Right),
        seq![40usize, 41, 42, 43, 44, 45, 46, 47, 48, 49],
        false,
        true,
    )
    &&& spec_row(
        t.spec_anim(AnimState::Walk, MoveDir::Up),
        seq![36usize, 37, 38, 39, 40, 41, 42, 43],
        false,
        true,
    )
    &&& spec_row(
        t.spec_anim(AnimState::Walk, MoveDir::Down),
        seq![24usize, 25, 26, 27, 28, 29, 30, 31],
        false,
        true,
    )
    &&& spec_row(
        t.spec_anim(AnimState::Walk, MoveDir::Left),
        seq![12usize, 13, 14, 15, 16, 17, 18, 19],
        false,
        true,
    )
    &&& spec_row(
        t.spec_anim(AnimState::Walk, MoveDir::Right),
        seq![0usize, 1, 2, 3, 4, 5, 6, 7],
        false,
        true,
    )
    &&& spec_row(
        t.spec_anim(AnimState::Run, MoveDir::Up),
        seq![44usize, 45, 46, 47],
        false,
        true,
    )
    &&& spec_row(
        t.spec_anim(AnimState::Run, MoveDir::Down),
        seq![32usize, 33, 34, 35],
        false,
        true,
    )
    &&& spec_row(
        t.spec_anim(AnimState::Run, MoveDir::Left),
        seq![20usize, 21, 22, 23],
        false,
        true,
    )
    &&& spec_row(
        t.spec_anim(AnimState::Run, MoveDir::Right),
        seq![8usize, 9, 10, 11],
        false,
        true,
    )
    &&& spec_row(
        t.spec_anim(AnimState::Attack, MoveDir::Up),
        seq![30usize, 31, 32, 33, 34, 35, 36, 37, 38, 39],
        false,
        false,
    )
    &&& spec_row(
        t.spec_anim(AnimState::Attack, MoveDir::Down),
        seq![20usize, 21, 22, 23, 24, 25, 26, 27, 28, 29],
        false,
        false,
    )
    &&& spec_row(
        t.spec_anim(AnimState::Attack, MoveDir::Left),
        seq![10usize, 11, 12, 13, 14, 15, 16, 17, 18, 19],
        false,
        false,
    )
    &&& spec_row(
        t.spec_anim(AnimState::Attack, MoveDir::Right),
        seq![0usize, 1, 2, 3, 4, 5, 6, 7, 8, 9],
        false,
        false,
    )
    &&& t.spec_anim(AnimState::AttackInjured, MoveDir::Up) is None
    &&& t.spec_anim(AnimState::AttackInjured, MoveDir::Down) is None
    &&& t.spec_anim(AnimState::AttackInjured, MoveDir::Left) is None
    &&& t.spec_anim(AnimState::AttackInjured, MoveDir::Right) is None
    &&& spec_row(
        t.spec_anim(AnimState::Dead, MoveDir::Up),
        seq![0usize, 1, 2, 3],
        true,
        false,
    )
    &&& spec_row(
        t.spec_anim(AnimState::Dead, MoveDir::Down),
        seq![0usize, 1, 2, 3],
        false,
        false,
    )
    &&& spec_row(
        t.spec_anim(AnimState::Dead, MoveDir::Left),
        seq![0usize, 1, 2, 3],
        true,
        false,
    )
    &&& spec_row(
        t.spec_anim(AnimState::Dead, MoveDir::Right),
        seq![0usize, 1, 2, 3],
        false,
        false,
    )
    &&& t.timer_duration@[spec_state_index(AnimState::Idle)] == 150
    &&& t.timer_duration@[spec_state_index(AnimState::IdleInjured)] == 150
    &&& t.timer_duration@[spec_state_index(AnimState::Walk)] == 100
    &&& t.timer_duration@[spec_state_index(AnimState::Run)] == 100
    &&& t.timer_duration@[spec_state_index(AnimState::Attack)] == 80
    &&& t.timer_duration@[spec_state_index(AnimState::Dead)] == 200
    &&& t.sheet_index@[spec_state_index(AnimState::Idle)] == 0
    &&& t.sheet_index@[spec_state_index(AnimState::IdleInjured)] == 0
    &&& t.sheet_index@[spec_state_index(AnimState::Walk)] == 1
    &&& t.sheet_index@[spec_state_index(AnimState::Run)] == 1
    &&& t.sheet_index@[spec_state_index(AnimState::Attack)] == 2
    &&& t.sheet_index@[spec_state_index(AnimState::Dead)] == 3
}

fn player_row(frames: Vec<usize>, flip_x: bool, looping: bool) -> (a: AnimationDirection)
    requires
        frames@.len() >= 1,
    ensures
        a == (AnimationDirection { frames, flip_x, flip_y: false, looping }),
        a.wf(),
{
    AnimationDirection { frames, flip_x, flip_y: false, looping }
}

/// The read-only animation table for the player, built once at actor-type
/// setup, over the warrior idle, walk/run, sword-attack and death sheets.
#[verifier::rlimit(100)]
pub fn setup_player_animations() -> (t: AnimationIndices)
    ensures
        spec_player_anim_shape(t),
{
    let mut t = AnimationIndices::empty();

    t.set_state_row(AnimState::Idle, 0, 150);
    t.set_anim(
        AnimState::Idle,
        MoveDir::Up,
        player_row(vec![30, 31, 32, 33, 34, 35, 36, 37, 38, 39], false, true),
    );
    t.set_anim(
        AnimState::Idle,
        MoveDir::Down,
        player_row(vec![20, 21, 22, 23, 24, 25, 26, 27, 28, 29], false, true),
    );
    t.set_anim(
        AnimState::Idle,
        MoveDir::Left,
        player_row(vec![10, 11, 12, 13, 14, 15, 16, 17, 18, 19], false, true),
    );
    t.set_anim(
        AnimState::Idle,
        MoveDir::Right,
        player_row(vec![0, 1, 2, 3, 4, 5, 6, 7, 8, 9], false, true),
    );

    t.set_state_row(AnimState::IdleInjured, 0, 150);
    t.set_anim(
        AnimState::IdleInjured,
        MoveDir::Up,
        player_row(vec![70, 71, 72, 73, 74, 75, 76, 77, 78, 79], false, true),
    );
    t.set_anim(
        AnimState::IdleInjured,
        MoveDir::Down,
        player_row(vec![60, 61, 62, 63, 64, 65, 66, 67, 68, 69], false, true),
    );
    t.set_anim(
        AnimState::IdleInjured,
        MoveDir::Left,
        player_row(vec![50, 51, 52, 53, 54, 55, 56, 57, 58, 59], false, true),
    );
    t.set_anim(
        AnimState::IdleInjured,
        MoveDir::Right,
        player_row(vec![40, 41, 42, 43, 44, 45, 46, 47, 48, 49], false, true),
    );

    t.set_state_row(AnimState::Walk, 1, 100);
    t.set_anim(
        AnimState::Walk,
        MoveDir::Up,
        player_row(vec![36, 37, 38, 39, 40, 41, 42, 43], false, true),
    );
    t.set_anim(
        AnimState::Walk,
        MoveDir::Down,
        player_row(vec![24, 25, 26, 27, 28, 29, 30, 31], false, true),
    );
    t.set_anim(
        AnimState::Walk,
        MoveDir::Left,
        player_row(vec![12, 13, 14, 15, 16, 17, 18, 19], false, true),
    );
    t.set_anim(
        AnimState::Walk,
        MoveDir::Right,
        player_row(vec![0, 1, 2, 3, 4, 5, 6, 7], false, true),
    );

    t.set_state_row(AnimState::Run, 1, 100);
    t.set_anim(AnimState::Run, MoveDir::Up, player_row(vec![44, 45, 46, 47], false, true));
    t.set_anim(AnimState::Run, MoveDir::Down, player_row(vec![32, 33, 34, 35], false, true));
    t.set_anim(AnimState::Run, MoveDir::Left, player_row(vec![20, 21, 22, 23], false, true));
    t.set_anim(AnimState::Run, MoveDir::Right, player_row(vec![8, 9, 10, 11], false, true));

    t.set_state_row(AnimState::Attack, 2, 80);
    t.set_anim(
        AnimState::Attack,
        MoveDir::Up,
        player_row(vec![30, 31, 32, 33, 34, 35, 36, 37, 38, 39], false, false),
    );
    t.set_anim(
        AnimState::Attack,
        MoveDir::Down,
        player_row(vec![20, 21, 22, 23, 24, 25, 26, 27, 28, 29], false, false),
    );
    t.set_anim(
        AnimState::Attack,
        MoveDir::Left,
        player_row(vec![10, 11, 12, 13, 14, 15, 16, 17, 18, 19], false, false),
    );
    t.set_anim(
        AnimState::Attack,
        MoveDir::Right,
        player_row(vec![0, 1, 2, 3, 4, 5, 6, 7, 8, 9], false, false),
    );

    t.set_state_row(AnimState::Dead, 3, 200);
    t.set_anim(AnimState::Dead, MoveDir::Up, player_row(vec![0, 1, 2, 3], true, false));
    t.set_anim(AnimState::Dead, MoveDir::Down, player_row(vec![0, 1, 2, 3], false, false));
    t.set_anim(AnimState::Dead, MoveDir::Left, player_row(vec![0, 1, 2, 3], true, false));
    t.set_anim(AnimState::Dead, MoveDir::Right, player_row(vec![0, 1, 2, 3], false, false));

    t
}

} // verus!
