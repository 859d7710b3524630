//! The whole game world and its per-tick step. One tick runs the phases in
//! a fixed order — input, movement, combat, spawning, the despawn sweep,
//! wave-clear detection, death handling, animation — and that ordering is
//! the concurrency model: each piece of shared state has one writer per
//! phase. Combat, scheduling and movement run only while play is active;
//! the restart wait runs only in the restart phase.

use vstd::prelude::*;
use crate::actor::{AnimError, animate};
use crate::audio::{AudioPlaying, SoundPlan, plan_sounds};
use crate::actor::Actor;
use crate::axol::{Axol, spec_axol_anim_shape};
use crate::combat::{
    Health, KILL_BONUS, beyond_melee_range, check_axol_attack, check_player_attack,
    collect_sword_events, despawn_dead_entities, handle_axol_damage, handle_player_damage,
    spec_chase_dir, spec_count_walks, spec_walk_phase, spec_walked_axol, spec_wants_walk,
    walk_to_player,
};
use crate::game::{
    DeathTransition, Game, GameState, STARTING_LIVES, check_for_wave_cleared,
    game_state_input_events, handle_player_death, setup_new_game, setup_spawner,
    wait_for_restart,
};
use crate::nowalk::LevelNoWalk;
use crate::player::{
    InputState, Player, handle_input, setup_player, setup_player_animations,
    spec_player_after_input, spec_player_anim_shape,
};
use crate::player_movement::{handle_player_run, handle_player_walk, spec_pos_ok};
use crate::score::Score;
use crate::spawner::{SpawnerBundle, process_wait_to_spawn};
use crate::sprite::{AnimState, AnimationIndices, SpriteOutput};
use crate::axol::setup_axol_animations;
use crate::timer::Timer;

verus! {

/// The whole game: the active phase, the session counters, the score, both
/// actor populations, the spawner of the active wave, the restart wait, the
/// walkability map, the two animation tables, and the pending next-wave
/// signal.
pub struct World {
    pub state: GameState,
    pub game: Game,
    pub score: Score,
    pub player: Option<Player>,
    pub axols: Vec<Axol>,
    pub spawner: Option<SpawnerBundle>,
    pub restart_timer: Option<Timer>,
    pub nowalk: LevelNoWalk,
    pub player_indices: AnimationIndices,
    pub axol_indices: AnimationIndices,
    pub new_wave_pending: bool,
}

impl World {
    pub open spec fn wf(self) -> bool {
        &&& (self.player matches Some(p) ==> p.wf() && spec_pos_ok(p.actor.pos))
        &&& forall|k: int| 0 <= k < self.axols@.len() ==> (#[trigger] self.axols@[k]).wf()
        &&& forall|k: int|
            0 <= k < self.axols@.len() ==> spec_pos_ok((#[trigger] self.axols@[k]).actor.pos)
        &&& (self.spawner matches Some(s) ==> s.wf())
        &&& (self.restart_timer matches Some(t) ==> t.wf())
        &&& spec_player_anim_shape(self.player_indices)
        &&& spec_axol_anim_shape(self.axol_indices)
        &&& self.nowalk.wf()
        &&& (self.state != GameState::Splash ==> self.player is Some)
        &&& (self.state == GameState::Restart ==> self.restart_timer is Some)
    }

    /// A fresh world on the splash screen: no actors, no spawner, score
    /// zero, over the given walkability map.
    pub fn new(nowalk: LevelNoWalk) -> (w: World)
        requires
            nowalk.wf(),
        ensures
            w.wf(),
            w.state == GameState::Splash,
            w.player is None,
            w.axols@.len() == 0,
            w.spawner is None,
            w.restart_timer is None,
            w.score == Score(0),
            w.new_wave_pending == false,
            w.nowalk == nowalk,
    {
        World {
            state: GameState::Splash,
            game: Game::new(),
            score: Score(0),
            player: None,
            axols: Vec::new(),
            spawner: None,
            restart_timer: None,
            nowalk,
            player_indices: setup_player_animations(),
            axol_indices: setup_axol_animations(),
            new_wave_pending: false,
        }
    }
}

/// Everything one tick reports to the host: which gameplay events fired,
/// and the sprite updates the renderer is to apply.
pub struct TickOutput {
    /// A new session just started (music restarts).
    pub started: bool,
    /// A spawner was created for the pending wave.
    pub spawner_created: bool,
    /// An enemy was spawned this tick.
    pub spawned: bool,
    /// How many enemies decided to take a walking step this tick.
    pub walk_intents: usize,
    pub sword_hits: usize,
    pub sword_misses: usize,
    pub bites: usize,
    pub axol_deaths: usize,
    pub player_died: bool,
    pub game_over: bool,
    pub wave_cleared: bool,
    /// The restart wait completed and play resumed.
    pub restarted: bool,
    /// An actor asked for a (state, direction) pair missing from its
    /// animation table: a fatal configuration error.
    pub anim_error: bool,
    pub player_sprite: Option<SpriteOutput>,
    pub axol_sprites: Vec<Option<SpriteOutput>>,
}

impl TickOutput {
    /// The no-event output.
    pub fn none() -> (out: TickOutput)
        ensures
            !out.started,
            !out.spawner_created,
            !out.spawned,
            out.walk_intents == 0,
            out.sword_hits == 0,
            out.sword_misses == 0,
            out.bites == 0,
            out.axol_deaths == 0,
            !out.player_died,
            !out.game_over,
            !out.wave_cleared,
            !out.restarted,
            !out.anim_error,
            out.player_sprite is None,
            out.axol_sprites@.len() == 0,
    {
        TickOutput {
            started: false,
            spawner_created: false,
            spawned: false,
            walk_intents: 0,
            sword_hits: 0,
            sword_misses: 0,
            bites: 0,
            axol_deaths: 0,
            player_died: false,
            game_over: false,
            wave_cleared: false,
            restarted: false,
            anim_error: false,
            player_sprite: None,
            axol_sprites: Vec::new(),
        }
    }

    /// The audio plan for this tick's events, given which sound classes the
    /// host reports as already playing.
    pub fn sounds(&self, playing: AudioPlaying) -> (plan: SoundPlan)
        ensures
            plan.music == self.started,
            (plan.sword_hit is Some) == (self.sword_hits > 0 && !playing.sword),
            (plan.sword_miss is Some) == (self.sword_misses > 0 && !playing.sword),
            plan.bite == (self.bites > 0 && !playing.bite),
            plan.axol_death == (self.axol_deaths > 0 && !playing.death),
            plan.player_death == (self.player_died && !playing.death),
    {
        plan_sounds(
            self.started,
            self.sword_hits > 0,
            self.sword_misses > 0,
            self.bites > 0,
            self.axol_deaths > 0,
            self.player_died,
            playing,
        )
    }
}

/// Which phase changes one tick may make: splash to play; play to pause,
/// restart, next-wave, or — on game over — back to splash; pause back to
/// play; next-wave to play once its spawner stands; restart to play once
/// the wait has run out.
pub open spec fn spec_transition_ok(a: GameState, b: GameState) -> bool {
    match a {
        GameState::Splash => b == GameState::Splash || b == GameState::InGame,
        GameState::InGame => b == GameState::InGame || b == GameState::Paused || b
            == GameState::Restart || b == GameState::Splash || b == GameState::NextWave,
        GameState::Paused => b == GameState::Paused || b == GameState::InGame,
        GameState::NextWave => b == GameState::NextWave || b == GameState::InGame,
        GameState::Restart => b == GameState::Restart || b == GameState::InGame,
        GameState::GameOver => b == GameState::GameOver,
    }
}

/// One tick of the whole game.
///
/// While play is active the phases run in their fixed order: the player's
/// input decision, the movement gate, enemy chase decisions and steps, bite
/// resolution, swing resolution and enemy damage, player damage, spawning,
/// the despawn sweep, wave-clear detection, death handling, and animation.
/// The score changes by exactly the kill bonus per enemy death reported and
/// by nothing else; a new session resets it to zero. On the splash screen
/// only the start key acts; while paused only the pause key acts.
#[verifier::rlimit(100)]
pub fn tick(w: &mut World, input: InputState, delta_ms: u32) -> (out: TickOutput)
    requires
        old(w).wf(),
        old(w).game.wave_number < 255,
        old(w).score.0 + KILL_BONUS * old(w).axols@.len() <= usize::MAX,
    ensures
        final(w).wf(),
        spec_transition_ok(old(w).state, final(w).state),
        old(w).state == GameState::InGame ==> final(w).score.0 == old(w).score.0 + KILL_BONUS
            * out.axol_deaths,
        old(w).state != GameState::InGame ==> out.axol_deaths == 0 && !out.player_died
            && out.sword_hits == 0 && out.bites == 0,
        old(w).state != GameState::InGame && !(old(w).state == GameState::Splash && input.start)
            ==> final(w).score == old(w).score,
        old(w).state == GameState::Splash && input.start ==> final(w).score == Score(0),
        old(w).state == GameState::Splash && input.start ==> final(w).game.wave_number == 1,
        old(w).state == GameState::Splash && input.start ==> final(w).game.lives_remaining
            == STARTING_LIVES,
        old(w).state == GameState::Splash && input.start ==> final(w).state == GameState::InGame,
        old(w).state == GameState::Splash && input.start ==> final(w).new_wave_pending,
        old(w).state == GameState::Splash && !input.start ==> *final(w) == *old(w),
        old(w).state == GameState::Paused ==> *final(w) == (World {
            state: if input.pause {
                GameState::InGame
            } else {
                GameState::Paused
            },
            ..*old(w)
        }),
        out.game_over ==> final(w).state == GameState::Splash,
        out.wave_cleared ==> final(w).game.wave_number == old(w).game.wave_number + 1,
        final(w).game.wave_number <= old(w).game.wave_number + 1,
        old(w).state == GameState::Splash ==> out.started == input.start,
        old(w).state == GameState::Restart ==> out.restarted == (old(
            w,
        ).restart_timer->0).spec_tick(delta_ms).spec_finished(),
        old(w).state == GameState::Restart && out.restarted ==> final(w).state
            == GameState::InGame,
        old(w).state == GameState::Restart && out.restarted ==> (final(w).player matches Some(p2)
            && p2.actor.health == Health(
            (old(w).player->0).actor.health.1 as i8,
            (old(w).player->0).actor.health.1,
        )),
        old(w).state == GameState::Restart && !out.restarted ==> final(w).state
            == GameState::Restart && (final(w).player matches Some(p2) && p2.actor.health == (old(
            w,
        ).player->0).actor.health),
{
    let mut out = TickOutput::none();
    if w.new_wave_pending && (matches!(w.state, GameState::InGame) || matches!(
        w.state,
        GameState::NextWave,
    )) {
        w.spawner = Some(setup_spawner(&w.game));
        w.new_wave_pending = false;
        w.state = GameState::InGame;
        out.spawner_created = true;
        return out;
    }
    match w.state {
        GameState::Splash => {
            match game_state_input_events(GameState::Splash, input.start, input.pause) {
                Some(next) => {
                    w.state = next;
                    setup_new_game(&mut w.game, &mut w.score);
                    w.player = Some(setup_player());
                    w.new_wave_pending = true;
                    out.started = true;
                },
                None => {},
            }
            out
        },
        GameState::Paused => {
            match game_state_input_events(GameState::Paused, input.start, input.pause) {
                Some(next) => {
                    w.state = next;
                },
                None => {},
            }
            out
        },
        GameState::Restart => {
            let mut t: Timer = match w.restart_timer {
                Some(t) => t,
                None => {
                    return out;
                },
            };
            let mut p: Player = match w.player {
                Some(p) => p,
                None => {
                    return out;
                },
            };
            let restarted = wait_for_restart(&mut t, &mut p, delta_ms);
            w.player = Some(p);
            if restarted {
                w.restart_timer = None;
                w.state = GameState::InGame;
                out.restarted = true;
            } else {
                w.restart_timer = Some(t);
            }
            animate_actors(w, delta_ms, &mut out);
            out
        },
        GameState::NextWave => out,
        GameState::GameOver => out,
        GameState::InGame => tick_in_game(w, input, delta_ms),
    }
}

/// The in-play part of one tick: input, movement, combat, spawning, the
/// despawn sweep, wave-clear detection, death handling and animation, in
/// that order. The score changes by exactly the kill bonus per enemy death
/// reported and by nothing else.
#[verifier::rlimit(100)]
#[verifier::spinoff_prover]
fn tick_in_game(w: &mut World, input: InputState, delta_ms: u32) -> (out: TickOutput)
    requires
        old(w).wf(),
        old(w).state == GameState::InGame,
        old(w).game.wave_number < 255,
        old(w).score.0 + KILL_BONUS * old(w).axols@.len() <= usize::MAX,
    ensures
        final(w).wf(),
        spec_transition_ok(GameState::InGame, final(w).state),
        final(w).score.0 == old(w).score.0 + KILL_BONUS * out.axol_deaths,
        out.game_over ==> final(w).state == GameState::Splash,
        out.game_over ==> final(w).player is None,
        out.game_over ==> final(w).axols@.len() == 0,
        out.game_over ==> final(w).spawner is None && !final(w).new_wave_pending,
        out.wave_cleared ==> final(w).game.wave_number == old(w).game.wave_number + 1,
        final(w).game.wave_number <= old(w).game.wave_number + 1,
        ({
            let p1 = spec_player_after_input(old(w).player->0, input, old(w).nowalk);
            out.walk_intents == spec_count_walks(old(w).axols@, p1.actor.pos, p1.actor.health)
        }),
        (match old(w).spawner {
            None => final(w).spawner is None && !out.spawned,

            Some(sp) => {
                let ticked = sp.rate.0.spec_tick(delta_ms);
                &&& out.spawned == (ticked.spec_finished() && sp.remaining.0 > 0)
                &&& (out.wave_cleared ==> final(w).spawner is None)
                &&& (!out.wave_cleared && !out.game_over ==> (final(w).spawner matches Some(
                    sp2,
                ) && sp2.rate.0
                    == ticked && sp2.remaining.0 as int == (if ticked.spec_finished()
                    && sp.remaining.0 > 0 {
                    sp.remaining.0 - 1
                } else {
                    sp.remaining.0 as int
                })))
            },
        }),
{
    let mut out = TickOutput::none();

    let mut p: Player = match w.player {
        Some(p) => p,
        None => {
            return out;
        },
    };
    let intents = handle_input(&mut p, input);

    // Movement phase: the player's own step, then each chasing enemy's
    // turn and step, every move through the walkability gate.
    match intents.walk {
        Some(d) => {
            let _ = handle_player_walk(&mut p.actor.pos, d, &w.nowalk);
        },
        None => {},
    }
    match intents.run {
        Some(d) => {
            let _ = handle_player_run(&mut p.actor.pos, d, &w.nowalk);
        },
        None => {},
    }
    proof {
        assert(p == spec_player_after_input(old(w).player->0, input, w.nowalk));
    }
    let ghost pre_walk = w.axols@;
    let walks = walk_to_player(&mut w.axols, p.actor.pos, p.actor.health);
    out.walk_intents = walks.len();
    step_walkers(&mut w.axols, &p, &w.nowalk, Ghost(pre_walk));

    // Combat phase: bites, then the swing with enemy damage, then the
    // bites' damage to the player.
    let bites = check_axol_attack(&mut w.axols, p.actor.pos, p.actor.health, delta_ms);
    out.bites = bites.len();
    if intents.swing {
        let outs = check_player_attack(p.actor.pos, p.actor.move_dir, &w.axols);
        let (hits, misses) = collect_sword_events(&outs);
        out.sword_misses = misses;
        out.sword_hits = hits.len();
        let deaths = handle_axol_damage(&mut w.axols, &mut w.score, &hits);
        out.axol_deaths = deaths;
    }
    let died = handle_player_damage(&mut p.actor.health, &bites);
    out.player_died = died;

    // Scheduler phase: spawn from the active wave, sweep out dead
    // enemies whose grace has run out, then test for wave clear.
    match w.spawner {
        Some(sp0) => {
            let mut sp: SpawnerBundle = sp0;
            match process_wait_to_spawn(&mut sp, delta_ms) {
                Some(ax) => {
                    w.axols.push(ax);
                    out.spawned = true;
                },
                None => {},
            }
            w.spawner = Some(sp);
        },
        None => {},
    }
    let ghost pre_sweep = w.axols@;
    despawn_dead_entities(&mut w.axols, delta_ms);
    proof {
        assert forall|k: int| 0 <= k < w.axols@.len() implies spec_pos_ok(
            (#[trigger] w.axols@[k]).actor.pos,
        ) by {
            let j = choose|j: int|
                0 <= j < pre_sweep.len() && w.axols@[k].actor == pre_sweep[j].actor
                    && w.axols@[k].cooldown == pre_sweep[j].cooldown;
        }
    }
    let cleared = check_for_wave_cleared(&mut w.game, &mut w.spawner, &w.axols);
    out.wave_cleared = cleared;
    if cleared {
        w.new_wave_pending = true;
        w.state = GameState::NextWave;
    }

    // Death handling: a death with lives left arms the restart wait; with
    // none left the session ends and the world empties back to the splash
    // screen.
    let mut game_over_now: bool = false;
    if died {
        match handle_player_death(&mut w.game, &mut p) {
            DeathTransition::Restart(t) => {
                w.restart_timer = Some(t);
                w.state = GameState::Restart;
            },
            DeathTransition::GameOver => {
                game_over_now = true;
            },
        }
    }
    if game_over_now {
        out.game_over = true;
        w.player = None;
        w.axols = Vec::new();
        w.spawner = None;
        w.new_wave_pending = false;
        w.state = GameState::Splash;
    } else {
        w.player = Some(p);
        animate_actors(w, delta_ms, &mut out);
        if matches!(w.state, GameState::InGame) {
            match game_state_input_events(GameState::InGame, input.start, input.pause) {
                Some(next) => {
                    w.state = next;
                },
                None => {},
            }
        }
    }
    out
}

/// Take the walking step of every enemy the chase decision just turned:
/// one walking step in its chase direction through the walkability gate.
/// `pre_walk` is the enemy list as it stood before the chase decision; the
/// list afterwards is exactly the walk phase of that list.
fn step_walkers(
    axols: &mut Vec<Axol>,
    p: &Player,
    nw: &LevelNoWalk,
    Ghost(pre_walk): Ghost<Seq<Axol>>,
)
    requires
        old(axols)@.len() == pre_walk.len(),
        forall|k: int| 0 <= k < old(axols)@.len() ==> (#[trigger] old(axols)@[k]).wf(),
        forall|k: int|
            0 <= k < old(axols)@.len() ==> spec_pos_ok((#[trigger] old(axols)@[k]).actor.pos),
        nw.wf(),
        forall|k: int|
            0 <= k < pre_walk.len() ==> (spec_wants_walk(
                pre_walk[k],
                p.actor.pos,
                p.actor.health,
            ) ==> (#[trigger] old(axols)@[k]) == (Axol {
                actor: Actor {
                    move_dir: spec_chase_dir(
                        pre_walk[k].actor.pos,
                        p.actor.pos,
                        pre_walk[k].actor.move_dir,
                    ),
                    anim_state: AnimState::Walk,
                    ..pre_walk[k].actor
                },
                ..pre_walk[k]
            })),
        forall|k: int|
            0 <= k < pre_walk.len() ==> (!spec_wants_walk(
                pre_walk[k],
                p.actor.pos,
                p.actor.health,
            ) ==> (#[trigger] old(axols)@[k]) == pre_walk[k]),
    ensures
        final(axols)@ == spec_walk_phase(pre_walk, p.actor.pos, p.actor.health, *nw),
        forall|k: int| 0 <= k < final(axols)@.len() ==> (#[trigger] final(axols)@[k]).wf(),
        forall|k: int|
            0 <= k < final(axols)@.len() ==> spec_pos_ok((#[trigger] final(axols)@[k]).actor.pos),
{
    let mut wi: usize = 0;
    while wi < axols.len()
        invariant
            wi <= axols@.len(),
            axols@.len() == pre_walk.len(),
            nw.wf(),
            forall|k: int| 0 <= k < axols@.len() ==> (#[trigger] axols@[k]).wf(),
            forall|k: int|
                0 <= k < axols@.len() ==> spec_pos_ok((#[trigger] axols@[k]).actor.pos),
            forall|k: int| wi <= k < axols@.len() ==> (#[trigger] axols@[k]) == old(axols)@[k],
            forall|k: int|
                0 <= k < wi ==> (#[trigger] axols@[k]) == spec_walked_axol(
                    pre_walk[k],
                    p.actor.pos,
                    p.actor.health,
                    *nw,
                ),
            forall|k: int|
                0 <= k < pre_walk.len() ==> (spec_wants_walk(
                    pre_walk[k],
                    p.actor.pos,
                    p.actor.health,
                ) ==> (#[trigger] old(axols)@[k]) == (Axol {
                    actor: Actor {
                        move_dir: spec_chase_dir(
                            pre_walk[k].actor.pos,
                            p.actor.pos,
                            pre_walk[k].actor.move_dir,
                        ),
                        anim_state: AnimState::Walk,
                        ..pre_walk[k].actor
                    },
                    ..pre_walk[k]
                })),
            forall|k: int|
                0 <= k < pre_walk.len() ==> (!spec_wants_walk(
                    pre_walk[k],
                    p.actor.pos,
                    p.actor.health,
                ) ==> (#[trigger] old(axols)@[k]) == pre_walk[k]),
        decreases axols@.len() - wi,
    {
        let a: Axol = axols[wi];
        if a.actor.health.0 > 0 && p.actor.health.0 > 0 && beyond_melee_range(
            a.actor.pos,
            p.actor.pos,
        ) {
            let mut a2: Axol = a;
            let _ = handle_player_walk(&mut a2.actor.pos, a2.actor.move_dir, nw);
            axols.set(wi, a2);
        }
        proof {
            assert(axols@[wi as int] == spec_walked_axol(
                pre_walk[wi as int],
                p.actor.pos,
                p.actor.health,
                *nw,
            ));
        }
        wi = wi + 1;
    }
    proof {
        assert(axols@ =~= spec_walk_phase(pre_walk, p.actor.pos, p.actor.health, *nw));
    }
}

/// Advance every actor's animation by this tick's elapsed time and record
/// the sprite updates. Nothing else of the world changes; a missing table
/// entry is reported as the fatal configuration error.
fn animate_actors(w: &mut World, delta_ms: u32, out: &mut TickOutput)
    requires
        old(w).wf(),
    ensures
        final(out).started == old(out).started,
        final(out).spawner_created == old(out).spawner_created,
        final(out).spawned == old(out).spawned,
        final(out).walk_intents == old(out).walk_intents,
        final(out).sword_hits == old(out).sword_hits,
        final(out).sword_misses == old(out).sword_misses,
        final(out).bites == old(out).bites,
        final(out).axol_deaths == old(out).axol_deaths,
        final(out).player_died == old(out).player_died,
        final(out).game_over == old(out).game_over,
        final(out).wave_cleared == old(out).wave_cleared,
        final(out).restarted == old(out).restarted,
        final(w).wf(),
        final(w).state == old(w).state,
        final(w).game == old(w).game,
        final(w).score == old(w).score,
        final(w).spawner == old(w).spawner,
        final(w).restart_timer == old(w).restart_timer,
        final(w).new_wave_pending == old(w).new_wave_pending,
        final(w).nowalk == old(w).nowalk,
        final(w).axols@.len() == old(w).axols@.len(),
        (final(w).player is Some) == (old(w).player is Some),
        old(w).player matches Some(p) ==> (final(w).player matches Some(p2) && p2.actor.health
            == p.actor.health && p2.actor.pos == p.actor.pos && p2.actor.move_dir
            == p.actor.move_dir && p2.actor.moving == p.actor.moving),
        forall|k: int|
            0 <= k < final(w).axols@.len() ==> (#[trigger] final(w).axols@[k]).cooldown == old(
                w,
            ).axols@[k].cooldown,
{
    match w.player {
        Some(p0) => {
            let mut p: Player = p0;
            match animate(&mut p.actor, &w.player_indices, delta_ms) {
                Ok(s) => {
                    out.player_sprite = s;
                },
                Err(AnimError::MissingAnimation) => {
                    out.anim_error = true;
                },
            }
            w.player = Some(p);
        },
        None => {},
    }
    let ghost mid = *w;
    let mut err: bool = false;
    let mut i: usize = 0;
    let mut sprites: Vec<Option<SpriteOutput>> = Vec::new();
    while i < w.axols.len()
        invariant
            w.axols@.len() == old(w).axols@.len(),
            forall|k: int| 0 <= k < w.axols@.len() ==> (#[trigger] w.axols@[k]).wf(),
            forall|k: int|
                0 <= k < w.axols@.len() ==> spec_pos_ok((#[trigger] w.axols@[k]).actor.pos),
            forall|k: int|
                0 <= k < w.axols@.len() ==> (#[trigger] w.axols@[k]).cooldown
                    == mid.axols@[k].cooldown,
            mid.axols@.len() == old(w).axols@.len(),
            forall|k: int|
                0 <= k < mid.axols@.len() ==> (#[trigger] mid.axols@[k]).cooldown == old(
                    w,
                ).axols@[k].cooldown,
            w.state == mid.state,
            w.game == mid.game,
            w.score == mid.score,
            w.player == mid.player,
            w.spawner == mid.spawner,
            w.restart_timer == mid.restart_timer,
            w.nowalk == mid.nowalk,
            w.player_indices == mid.player_indices,
            w.axol_indices == mid.axol_indices,
            w.new_wave_pending == mid.new_wave_pending,
            mid.state == old(w).state,
            mid.game == old(w).game,
            mid.score == old(w).score,
            mid.spawner == old(w).spawner,
            mid.restart_timer == old(w).restart_timer,
            mid.nowalk == old(w).nowalk,
            mid.new_wave_pending == old(w).new_wave_pending,
            (mid.player is Some) == (old(w).player is Some),
            mid.player matches Some(p) ==> p.wf() && spec_pos_ok(p.actor.pos),
            spec_player_anim_shape(w.player_indices),
            spec_axol_anim_shape(w.axol_indices),
        decreases w.axols@.len() - i,
    {
        let mut a: Axol = w.axols[i];
        match animate(&mut a.actor, &w.axol_indices, delta_ms) {
            Ok(s) => {
                sprites.push(s);
            },
            Err(AnimError::MissingAnimation) => {
                err = true;
                sprites.push(None);
            },
        }
        w.axols.set(i, a);
        i = i + 1;
    }
    if err {
        out.anim_error = true;
    }
    out.axol_sprites = sprites;
}

} // verus!
