use axol::combat::Health;
use axol::player::{InputState, handle_input, setup_player};
use axol::sprite::{AnimState, MoveDir};

#[test]
fn attack_press_starts_swing() {
    let mut p = setup_player();
    let input = InputState { attack: true, ..InputState::none() };
    let intents = handle_input(&mut p, input);
    assert!(intents.swing);
    assert!(intents.walk.is_none());
    assert!(intents.run.is_none());
    assert_eq!(p.actor.anim_state, AnimState::Attack);
    assert_eq!(p.actor.anim_frame.0, 0);
    assert!(!p.actor.moving.0);
}

#[test]
fn dead_player_ignores_input() {
    let mut p = setup_player();
    p.actor.anim_state = AnimState::Dead;
    let input = InputState { attack: true, up: true, ..InputState::none() };
    let intents = handle_input(&mut p, input);
    assert!(!intents.swing);
    assert!(intents.walk.is_none());
    assert_eq!(p.actor.anim_state, AnimState::Dead);
}

#[test]
fn held_direction_walks() {
    let mut p = setup_player();
    let input = InputState { left: true, ..InputState::none() };
    let intents = handle_input(&mut p, input);
    assert_eq!(intents.walk, Some(MoveDir::Left));
    assert!(intents.run.is_none());
    assert_eq!(p.actor.anim_state, AnimState::Walk);
    assert_eq!(p.actor.move_dir, MoveDir::Left);
    assert!(p.actor.moving.0);
}

#[test]
fn run_modifier_runs() {
    let mut p = setup_player();
    let input = InputState { down: true, shift: true, ..InputState::none() };
    let intents = handle_input(&mut p, input);
    assert_eq!(intents.run, Some(MoveDir::Down));
    assert!(intents.walk.is_none());
    assert_eq!(p.actor.anim_state, AnimState::Run);
}

#[test]
fn direction_priority_is_up_down_left_right() {
    let mut p = setup_player();
    let input = InputState { up: true, left: true, ..InputState::none() };
    let intents = handle_input(&mut p, input);
    assert_eq!(intents.walk, Some(MoveDir::Up));
    assert_eq!(p.actor.move_dir, MoveDir::Up);
}

#[test]
fn no_input_falls_back_to_idle_by_health() {
    let mut p = setup_player();
    p.actor.anim_state = AnimState::Walk;
    let intents = handle_input(&mut p, InputState::none());
    assert!(!intents.swing);
    assert_eq!(p.actor.anim_state, AnimState::Idle);

    let mut hurt = setup_player();
    hurt.actor.health = Health(7, 20);
    hurt.actor.anim_state = AnimState::Walk;
    handle_input(&mut hurt, InputState::none());
    assert_eq!(hurt.actor.anim_state, AnimState::IdleInjured);
}

#[test]
fn movement_ignored_while_attack_plays() {
    let mut p = setup_player();
    p.actor.anim_state = AnimState::Attack;
    let input = InputState { right: true, ..InputState::none() };
    let intents = handle_input(&mut p, input);
    assert!(intents.walk.is_none());
    assert!(!intents.swing);
    assert_eq!(p.actor.anim_state, AnimState::Attack);
    assert!(!p.actor.moving.0);
}
