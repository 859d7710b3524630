use axol::axol::setup_axol;
use axol::combat::Health;
use axol::game::{
    DeathTransition, Game, GameState, check_for_wave_cleared, game_state_input_events,
    handle_player_death, setup_new_game, setup_spawner, wait_for_restart, wave_params,
};
use axol::player::setup_player;
use axol::score::Score;
use axol::spawner::process_wait_to_spawn;
use axol::sprite::AnimState;

#[test]
fn new_game_resets_session_counters() {
    let mut game = Game { wave_number: 7, lives_remaining: 0, high_score: 12345 };
    let mut score = Score(900);
    setup_new_game(&mut game, &mut score);
    assert_eq!(game.wave_number, 1);
    assert_eq!(game.lives_remaining, 1);
    assert_eq!(game.high_score, 12345);
    assert_eq!(score, Score(0));
}

#[test]
fn state_input_transitions() {
    assert_eq!(
        game_state_input_events(GameState::Splash, true, false),
        Some(GameState::InGame)
    );
    assert_eq!(game_state_input_events(GameState::Splash, false, false), None);
    assert_eq!(
        game_state_input_events(GameState::InGame, false, true),
        Some(GameState::Paused)
    );
    assert_eq!(
        game_state_input_events(GameState::Paused, false, true),
        Some(GameState::InGame)
    );
    assert_eq!(game_state_input_events(GameState::Paused, false, false), None);
    // Pause does nothing on the splash screen; start does nothing in play.
    assert_eq!(game_state_input_events(GameState::Splash, false, true), None);
    assert_eq!(game_state_input_events(GameState::InGame, true, false), None);
    assert_eq!(game_state_input_events(GameState::Restart, true, true), None);
}

#[test]
fn wave_table_bands() {
    assert_eq!(wave_params(1), (2, 8000));
    assert_eq!(wave_params(2), (2, 8000));
    assert_eq!(wave_params(3), (4, 6000));
    assert_eq!(wave_params(4), (4, 6000));
    assert_eq!(wave_params(5), (6, 5000));
    assert_eq!(wave_params(10), (6, 5000));
    assert_eq!(wave_params(11), (10, 4000));
    assert_eq!(wave_params(200), (10, 4000));
}

#[test]
fn spawner_is_sized_by_the_wave() {
    let game = Game { wave_number: 3, lives_remaining: 1, high_score: 0 };
    let sp = setup_spawner(&game);
    assert_eq!(sp.remaining.0, 4);
    assert_eq!(sp.rate.0.duration_ms, 6000);
    assert!(sp.rate.0.repeating);
}

#[test]
fn spawner_spawns_on_interval_until_quota_runs_out() {
    let game = Game { wave_number: 1, lives_remaining: 1, high_score: 0 };
    let mut sp = setup_spawner(&game);
    assert_eq!(sp.remaining.0, 2);
    assert!(process_wait_to_spawn(&mut sp, 7999).is_none());
    let first = process_wait_to_spawn(&mut sp, 1);
    assert!(first.is_some());
    assert_eq!(first.unwrap().actor.health, Health(20, 20));
    assert_eq!(sp.remaining.0, 1);
    let second = process_wait_to_spawn(&mut sp, 8000);
    assert!(second.is_some());
    assert_eq!(sp.remaining.0, 0);
    // Quota exhausted: the interval still elapses, nothing spawns.
    assert!(process_wait_to_spawn(&mut sp, 8000).is_none());
    assert_eq!(sp.remaining.0, 0);
}

#[test]
fn wave_clear_needs_empty_quota_and_no_living_enemy() {
    let mut game = Game { wave_number: 1, lives_remaining: 1, high_score: 0 };
    // Quota 2 left and one enemy alive with health 5: no wave clear.
    let mut spawner = Some(setup_spawner(&game));
    let mut alive = setup_axol();
    alive.actor.health = Health(5, 20);
    let axols = vec![alive];
    assert!(!check_for_wave_cleared(&mut game, &mut spawner, &axols));
    assert_eq!(game.wave_number, 1);
    assert!(spawner.is_some());
}

#[test]
fn wave_clear_blocked_by_live_enemy_alone() {
    let mut game = Game { wave_number: 1, lives_remaining: 1, high_score: 0 };
    let mut spawner = Some(setup_spawner(&game));
    spawner.as_mut().unwrap().remaining.0 = 0;
    let axols = vec![setup_axol()];
    assert!(!check_for_wave_cleared(&mut game, &mut spawner, &axols));
}

#[test]
fn wave_clear_blocked_by_quota_alone() {
    let mut game = Game { wave_number: 1, lives_remaining: 1, high_score: 0 };
    let mut spawner = Some(setup_spawner(&game));
    assert!(!check_for_wave_cleared(&mut game, &mut spawner, &vec![]));
}

#[test]
fn wave_clear_fires_with_zero_quota_and_no_living_enemy() {
    let mut game = Game { wave_number: 1, lives_remaining: 1, high_score: 0 };
    let mut spawner = Some(setup_spawner(&game));
    spawner.as_mut().unwrap().remaining.0 = 0;
    // A dead enemy still lingering does not block the clear.
    let mut corpse = setup_axol();
    corpse.actor.health = Health(-1, 20);
    let axols = vec![corpse];
    assert!(check_for_wave_cleared(&mut game, &mut spawner, &axols));
    assert_eq!(game.wave_number, 2);
    assert!(spawner.is_none());
}

#[test]
fn death_with_lives_left_arms_the_restart_wait() {
    let mut game = Game { wave_number: 2, lives_remaining: 1, high_score: 0 };
    let mut player = setup_player();
    match handle_player_death(&mut game, &mut player) {
        DeathTransition::Restart(t) => {
            assert_eq!(t.duration_ms, 3000);
            assert!(!t.repeating);
        },
        DeathTransition::GameOver => panic!("one life was left: a restart is owed"),
    }
    assert_eq!(game.lives_remaining, 0);
    assert_eq!(game.wave_number, 2);
    assert_eq!(player.actor.anim_state, AnimState::Dead);
    assert_eq!(player.actor.anim_frame.0, 0);
}

#[test]
fn death_with_no_lives_is_game_over() {
    let mut game = Game { wave_number: 2, lives_remaining: 0, high_score: 0 };
    let mut player = setup_player();
    assert_eq!(handle_player_death(&mut game, &mut player), DeathTransition::GameOver);
    assert_eq!(game.lives_remaining, 0);
    assert_eq!(player.actor.anim_state, AnimState::Dead);
}

#[test]
fn restart_wait_restores_player_only_on_completion() {
    let mut game = Game { wave_number: 1, lives_remaining: 1, high_score: 0 };
    let mut player = setup_player();
    player.actor.health = Health(-2, 20);
    let mut timer = match handle_player_death(&mut game, &mut player) {
        DeathTransition::Restart(t) => t,
        DeathTransition::GameOver => panic!("one life was left: a restart is owed"),
    };
    // Health is not yet restored while the wait runs.
    assert!(!wait_for_restart(&mut timer, &mut player, 1000));
    assert_eq!(player.actor.health, Health(-2, 20));
    assert_eq!(player.actor.anim_state, AnimState::Dead);
    // After 3 seconds of elapsed tick time: restored to max, back to idle.
    assert!(wait_for_restart(&mut timer, &mut player, 2000));
    assert_eq!(player.actor.health, Health(20, 20));
    assert_eq!(player.actor.anim_state, AnimState::Idle);
    assert_eq!(player.actor.anim_frame.0, 0);
}
