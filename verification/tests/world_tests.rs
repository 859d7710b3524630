use axol::actor::Position;
use axol::axol::setup_axol;
use axol::combat::Health;
use axol::game::{Game, GameState};
use axol::nowalk::LevelNoWalk;
use axol::player::{InputState, setup_player};
use axol::score::Score;
use axol::sprite::MoveDir;
use axol::world::{TickOutput, World, tick};

fn open_level() -> LevelNoWalk {
    LevelNoWalk::new(Vec::new(), 100, 100)
}

fn world_in_game() -> World {
    let mut w = World::new(open_level());
    w.state = GameState::InGame;
    w.game = Game { wave_number: 1, lives_remaining: 1, high_score: 0 };
    w.player = Some(setup_player());
    w
}

fn start_key() -> InputState {
    InputState { start: true, ..InputState::none() }
}

fn attack_key() -> InputState {
    InputState { attack: true, ..InputState::none() }
}

#[test]
fn splash_waits_for_the_start_key() {
    let mut w = World::new(open_level());
    let out = tick(&mut w, InputState::none(), 16);
    assert!(!out.started);
    assert_eq!(w.state, GameState::Splash);
    assert!(w.player.is_none());
}

#[test]
fn starting_a_game_initializes_the_session() {
    let mut w = World::new(open_level());
    w.score = Score(0);
    let out = tick(&mut w, start_key(), 16);
    assert!(out.started);
    assert_eq!(w.state, GameState::InGame);
    assert_eq!(w.game.wave_number, 1);
    assert_eq!(w.game.lives_remaining, 1);
    assert_eq!(w.score, Score(0));
    assert!(w.player.is_some());
    assert!(w.new_wave_pending);

    // The pending wave signal turns into a spawner on the next tick.
    let out = tick(&mut w, InputState::none(), 16);
    assert!(out.spawner_created);
    let sp = w.spawner.expect("the first wave's spawner must stand");
    assert_eq!(sp.remaining.0, 2);
    assert_eq!(sp.rate.0.duration_ms, 8000);

    // After the spawn interval elapses, the first enemy appears.
    let out = tick(&mut w, InputState::none(), 8000);
    assert!(out.spawned);
    assert_eq!(w.axols.len(), 1);
}

#[test]
fn pause_toggles_and_freezes_the_world() {
    let mut w = world_in_game();
    w.axols.push(setup_axol());
    let pause = InputState { pause: true, ..InputState::none() };
    tick(&mut w, pause, 16);
    assert_eq!(w.state, GameState::Paused);
    let healths_before = w.axols[0].actor.health;
    let out = tick(&mut w, InputState::none(), 5000);
    assert_eq!(w.state, GameState::Paused);
    assert_eq!(out.bites, 0);
    assert_eq!(w.axols[0].actor.health, healths_before);
    tick(&mut w, pause, 16);
    assert_eq!(w.state, GameState::InGame);
}

#[test]
fn swing_kills_and_scores_exactly_the_bonus() {
    let mut w = world_in_game();
    let mut target = setup_axol();
    target.actor.pos = Position { x: 5500, y: 5000 };
    target.actor.health = Health(1, 20);
    w.axols.push(target);
    w.score = Score(0);

    let out = tick(&mut w, attack_key(), 16);
    assert_eq!(out.sword_hits, 1);
    assert_eq!(out.axol_deaths, 1);
    // Exactly the fixed bonus per enemy death, and by no other event.
    assert_eq!(w.score, Score(100));
    // The dead enemy lingers for its death animation.
    assert_eq!(w.axols.len(), 1);
    assert!(w.axols[0].actor.health.0 <= 0);

    // With quota zero and no living enemy, the wave clears exactly once.
    assert!(out.wave_cleared);
    assert_eq!(w.state, GameState::NextWave);
    assert_eq!(w.game.wave_number, 2);

    let out = tick(&mut w, InputState::none(), 16);
    assert!(out.spawner_created);
    assert!(!out.wave_cleared);
    assert_eq!(w.state, GameState::InGame);
    assert_eq!(w.score, Score(100));
    assert_eq!(w.spawner.unwrap().remaining.0, 2);
}

#[test]
fn swing_away_from_enemy_misses() {
    let mut w = world_in_game();
    let mut target = setup_axol();
    target.actor.pos = Position { x: 5500, y: 5000 };
    w.axols.push(target);
    if let Some(p) = w.player.as_mut() {
        p.actor.move_dir = MoveDir::Left;
    }
    let out = tick(&mut w, attack_key(), 16);
    assert_eq!(out.sword_hits, 0);
    assert_eq!(out.sword_misses, 1);
    assert_eq!(out.axol_deaths, 0);
    assert_eq!(w.score, Score(0));
    assert_eq!(w.axols[0].actor.health, Health(20, 20));
}

#[test]
fn death_restart_and_game_over_sequence() {
    let mut w = world_in_game();
    // One life, one adjacent biting enemy, a player at one health.
    w.game.lives_remaining = 1;
    if let Some(p) = w.player.as_mut() {
        p.actor.health = Health(1, 20);
    }
    let mut biter = setup_axol();
    biter.actor.pos = Position { x: 5010, y: 5000 };
    biter.actor.move_dir = MoveDir::Left;
    w.axols.push(biter);

    // The bite cooldown completes on this tick: the bite kills.
    let out = tick(&mut w, InputState::none(), 1500);
    assert!(out.bites >= 1);
    assert!(out.player_died);
    assert!(!out.game_over);
    assert_eq!(w.state, GameState::Restart);
    assert_eq!(w.game.lives_remaining, 0);
    // Health is not yet restored during the wait.
    assert!(w.player.as_ref().unwrap().actor.health.0 <= 0);

    let out = tick(&mut w, InputState::none(), 1000);
    assert!(!out.restarted);
    assert_eq!(w.state, GameState::Restart);
    assert!(w.player.as_ref().unwrap().actor.health.0 <= 0);

    // The 3-second wait completes: health restored, play resumes.
    let out = tick(&mut w, InputState::none(), 2000);
    assert!(out.restarted);
    assert_eq!(w.state, GameState::InGame);
    assert_eq!(w.player.as_ref().unwrap().actor.health, Health(20, 20));

    // A second death with no lives left goes straight to the splash
    // screen with a game-over signal, and the world empties.
    if let Some(p) = w.player.as_mut() {
        p.actor.health = Health(1, 20);
    }
    let out = tick(&mut w, InputState::none(), 1500);
    assert!(out.player_died);
    assert!(out.game_over);
    assert_eq!(w.state, GameState::Splash);
    assert!(w.player.is_none());
    assert!(w.axols.is_empty());
    assert!(w.spawner.is_none());
}

#[test]
fn idle_ticks_do_not_change_the_score() {
    let mut w = world_in_game();
    w.score = Score(300);
    let out = tick(&mut w, InputState::none(), 16);
    assert_eq!(out.axol_deaths, 0);
    assert_eq!(w.score, Score(300));
}

#[test]
fn distant_enemy_closes_in_over_ticks() {
    let mut w = world_in_game();
    w.axols.push(setup_axol());
    let y0 = w.axols[0].actor.pos.y;
    tick(&mut w, InputState::none(), 16);
    // The spawn point is mostly above the player: the enemy walks down.
    assert_eq!(w.axols[0].actor.pos.y, y0 - 3);
    assert_eq!(w.axols[0].actor.move_dir, MoveDir::Down);
}

#[test]
fn tick_output_starts_empty() {
    let out = TickOutput::none();
    assert_eq!(out.sword_hits, 0);
    assert_eq!(out.axol_deaths, 0);
    assert!(!out.game_over);
    assert!(out.player_sprite.is_none());
}
