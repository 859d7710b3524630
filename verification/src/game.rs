//! The game-state machine: splash, play, pause, restart, next-wave and
//! game-over sequencing, the lives and wave counters, the wave-clear test,
//! and the difficulty table that sizes each wave.

use vstd::prelude::*;
use crate::actor::Actor;
use crate::axol::Axol;
use crate::combat::Health;
use crate::player::Player;
use crate::score::Score;
use crate::spawner::{SpawnTimer, SpawnerBundle, WaveCount};
use crate::sprite::{AnimFrame, AnimState};
use crate::timer::Timer;

verus! {

/// Which phase of the game is active. Exactly one is active at a time and
/// gates which systems may run.
#[derive(Clone, Copy, Debug, PartialEq, Eq, Structural)]
pub enum GameState {
    Splash,
    InGame,
    Paused,
    NextWave,
    Restart,
    GameOver,
}

impl Default for GameState {
    fn default() -> (s: GameState)
        ensures
            s == GameState::Splash,
    {
        GameState::Splash
    }
}

/// Session-wide counters: the wave number (monotonic within a session), the
/// lives left before game over, and the best score seen.
#[derive(Clone, Copy, Debug, PartialEq, Eq, Structural)]
pub struct Game {
    pub wave_number: u8,
    pub lives_remaining: u8,
    pub high_score: usize,
}

impl Game {
    pub fn new() -> (g: Game)
        ensures
            g == (Game { wave_number: 0u8, lives_remaining: 0u8, high_score: 0usize }),
    {
        Game { wave_number: 0, lives_remaining: 0, high_score: 0 }
    }
}

/// Lives a new session starts with.
pub const STARTING_LIVES: u8 = 1;

/// How long the restart wait lasts after a death that leaves lives, in
/// milliseconds.
pub const RESTART_WAIT_MS: u32 = 3000;

/// Begin a brand-new session: wave one, the fixed starting lives, score
/// zero. The caller emits the game-start and first wave-start signals.
pub fn setup_new_game(game: &mut Game, score: &mut Score)
    ensures
        final(game).wave_number == 1,
        final(game).lives_remaining == STARTING_LIVES,
        final(game).high_score == old(game).high_score,
        final(score).0 == 0,
{
    game.wave_number = 1;
    game.lives_remaining = STARTING_LIVES;
    *score = Score(0);
}

/// What the start and pause keys do to the active state: start leaves the
/// splash screen, pause toggles between play and pause, and nothing else
/// reacts to either.
pub open spec fn spec_state_input(state: GameState, start: bool, pause: bool) -> Option<
    GameState,
> {
    if pause && state == GameState::InGame {
        Some(GameState::Paused)
    } else if pause && state == GameState::Paused {
        Some(GameState::InGame)
    } else if start && state == GameState::Splash {
        Some(GameState::InGame)
    } else {
        None
    }
}

/// The state-input decision of one tick, from the two relevant key edges.
pub fn game_state_input_events(state: GameState, start: bool, pause: bool) -> (next: Option<
    GameState,
>)
    ensures
        next == spec_state_input(state, start, pause),
{
    if pause && matches!(state, GameState::InGame) {
        Some(GameState::Paused)
    } else if pause && matches!(state, GameState::Paused) {
        Some(GameState::InGame)
    } else if start && matches!(state, GameState::Splash) {
        Some(GameState::InGame)
    } else {
        None
    }
}

/// Where a player death leads: a restart wait while lives remain, game over
/// otherwise.
#[derive(Clone, Copy, Debug, PartialEq, Eq, Structural)]
pub enum DeathTransition {
    /// Wait out the carried timer, then respawn.
    Restart(Timer),
    /// No lives left: the session ends.
    GameOver,
}

/// React to the player's death: the player switches to the death animation
/// at frame 0. While lives remain, one is spent and a one-shot restart
/// timer is armed; with none left the session is over.
pub fn handle_player_death(game: &mut Game, player: &mut Player) -> (t: DeathTransition)
    ensures
        final(player).actor == (Actor {
            anim_state: AnimState::Dead,
            anim_frame: AnimFrame(0),
            ..old(player).actor
        }),
        old(game).lives_remaining > 0 ==> t == DeathTransition::Restart(
            Timer {
                duration_ms: RESTART_WAIT_MS,
                elapsed_ms: 0u32,
                repeating: false,
                fired_now: false,
                fired_ever: false,
            },
        ) && *final(game) == (Game {
            lives_remaining: (old(game).lives_remaining - 1) as u8,
            ..*old(game)
        }),
        old(game).lives_remaining == 0 ==> t == DeathTransition::GameOver && *final(game) == *old(
            game,
        ),
{
    player.actor.anim_state = AnimState::Dead;
    player.actor.anim_frame = AnimFrame(0);
    if game.lives_remaining > 0 {
        game.lives_remaining = game.lives_remaining - 1;
        DeathTransition::Restart(Timer::from_millis(RESTART_WAIT_MS, false))
    } else {
        DeathTransition::GameOver
    }
}

/// Advance the restart wait; when it completes, the player is reset — idle
/// at frame 0 with health restored to max — and play resumes. Until then
/// the player stays as death left it, health not yet restored.
pub fn wait_for_restart(timer: &mut Timer, player: &mut Player, delta_ms: u32) -> (restarted:
    bool)
    requires
        old(timer).wf(),
        old(player).wf(),
    ensures
        *final(timer) == old(timer).spec_tick(delta_ms),
        final(timer).wf(),
        final(player).wf(),
        restarted == old(timer).spec_tick(delta_ms).spec_finished(),
        restarted ==> final(player).actor == (Actor {
            anim_state: AnimState::Idle,
            anim_frame: AnimFrame(0),
            health: Health(old(player).actor.health.1 as i8, old(player).actor.health.1),
            ..old(player).actor
        }),
        !restarted ==> *final(player) == *old(player),
{
    timer.tick(delta_ms);
    if timer.finished() {
        player.actor.anim_state = AnimState::Idle;
        player.actor.anim_frame = AnimFrame(0);
        player.actor.health = Health(player.actor.health.1 as i8, player.actor.health.1);
        true
    } else {
        false
    }
}

/// How many enemies the wave with this number spawns.
pub open spec fn spec_wave_count(wave_number: u8) -> u8 {
    if 1 <= wave_number <= 2 {
        2
    } else if 3 <= wave_number <= 4 {
        4
    } else if 5 <= wave_number <= 10 {
        6
    } else {
        10
    }
}

/// The spawn interval of the wave with this number, in milliseconds.
pub open spec fn spec_wave_interval_ms(wave_number: u8) -> u32 {
    if 1 <= wave_number <= 2 {
        8000
    } else if 3 <= wave_number <= 4 {
        6000
    } else if 5 <= wave_number <= 10 {
        5000
    } else {
        4000
    }
}

/// The difficulty curve: wave size and spawn interval as a step function of
/// the wave number. This table is data; the scheduler only reads it.
pub fn wave_params(wave_number: u8) -> (r: (u8, u32))
    ensures
        r.0 == spec_wave_count(wave_number),
        r.1 == spec_wave_interval_ms(wave_number),
{
    match wave_number {
        1..=2 => (2, 8000),
        3..=4 => (4, 6000),
        5..=10 => (6, 5000),
        _ => (10, 4000),
    }
}

/// Create the spawner for the wave the game is on, sized by the difficulty
/// table, its interval timer freshly started.
pub fn setup_spawner(game: &Game) -> (sp: SpawnerBundle)
    ensures
        sp.remaining == WaveCount(spec_wave_count(game.wave_number)),
        sp.rate.0 == (Timer {
            duration_ms: spec_wave_interval_ms(game.wave_number),
            elapsed_ms: 0u32,
            repeating: true,
            fired_now: false,
            fired_ever: false,
        }),
        sp.wf(),
{
    let (count, interval_ms) = wave_params(game.wave_number);
    SpawnerBundle {
        rate: SpawnTimer(Timer::from_millis(interval_ms, true)),
        remaining: WaveCount(count),
    }
}

/// The quota still queued in the spawner, if one is live.
pub open spec fn spec_quota(sp: Option<SpawnerBundle>) -> int {
    match sp {
        Some(s) => s.remaining.0 as int,
        None => 0,
    }
}

/// How many enemies of the list are alive (health strictly positive).
pub open spec fn spec_alive_count(s: Seq<Axol>) -> int
    decreases s.len(),
{
    if s.len() == 0 {
        0
    } else {
        spec_alive_count(s.drop_last()) + if s.last().actor.health.0 > 0 {
            1int
        } else {
            0int
        }
    }
}

/// The wave-clear test: the wave is cleared exactly when the spawner quota
/// has reached zero and no enemy with positive health remains. Clearing
/// advances the wave number, destroys the spawner, and asks the caller to
/// signal the next wave.
pub fn check_for_wave_cleared(
    game: &mut Game,
    spawner: &mut Option<SpawnerBundle>,
    axols: &Vec<Axol>,
) -> (cleared: bool)
    requires
        old(game).wave_number < u8::MAX,
    ensures
        cleared <==> (spec_quota(*old(spawner)) == 0 && spec_alive_count(axols@) == 0),
        cleared ==> final(game).wave_number == old(game).wave_number + 1,
        cleared ==> final(game).lives_remaining == old(game).lives_remaining,
        cleared ==> final(game).high_score == old(game).high_score,
        cleared ==> *final(spawner) is None,
        !cleared ==> *final(game) == *old(game) && *final(spawner) == *old(spawner),
{
    let quota: u32 = match spawner {
        Some(s) => s.remaining.0 as u32,
        None => 0,
    };
    let mut alive: usize = 0;
    let mut i: usize = 0;
    while i < axols.len()
        invariant
            i <= axols@.len(),
            alive as int == spec_alive_count(axols@.take(i as int)),
            alive <= i,
        decreases axols@.len() - i,
    {
        proof {
            assert(axols@.take(i + 1).drop_last() =~= axols@.take(i as int));
            assert(axols@.take(i + 1).last() == axols@[i as int]);
        }
        if axols[i].actor.health.0 > 0 {
            alive = alive + 1;
        }
        i = i + 1;
    }
    proof {
        assert(axols@.take(axols@.len() as int) =~= axols@);
    }
    if quota == 0 && alive == 0 {
        game.wave_number = game.wave_number + 1;
        *spawner = None;
        true
    } else {
        false
    }
}

} // verus!
