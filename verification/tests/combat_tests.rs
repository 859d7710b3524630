use axol::actor::{Position, animate};
use axol::axol::{setup_axol, setup_axol_animations};
use axol::combat::{
    DamageOutcome, Health, SwingOutcome, apply_damage, beyond_melee_range, check_axol_attack,
    check_player_attack, collect_sword_events, despawn_dead_entities, facing_toward,
    handle_axol_damage, handle_player_damage, in_melee_range, walk_to_player,
};
use axol::events::AxolBiteEvent;
use axol::score::Score;
use axol::sprite::{AnimState, MoveDir};

#[test]
fn damage_against_dead_target_is_dropped() {
    // Idempotent death: once at or below zero, health never moves again.
    let mut h = Health(-2, 20);
    assert_eq!(apply_damage(&mut h, 5), DamageOutcome::Ignored);
    assert_eq!(h, Health(-2, 20));
    let mut h0 = Health(0, 20);
    assert_eq!(apply_damage(&mut h0, 1), DamageOutcome::Ignored);
    assert_eq!(h0, Health(0, 20));
}

#[test]
fn health_display_is_clamped_at_zero() {
    assert_eq!(Health(-3, 20).display_value(), 0);
    assert_eq!(Health(0, 20).display_value(), 0);
    assert_eq!(Health(7, 20).display_value(), 7);
}

#[test]
fn damage_applies_while_alive() {
    let mut h = Health(10, 20);
    assert_eq!(apply_damage(&mut h, 3), DamageOutcome::Survived);
    assert_eq!(h, Health(7, 20));
    assert_eq!(apply_damage(&mut h, 6), DamageOutcome::Survived);
    assert_eq!(h, Health(1, 20));
    assert_eq!(apply_damage(&mut h, 4), DamageOutcome::Died);
    assert_eq!(h, Health(-3, 20));
}

#[test]
fn melee_range_thresholds() {
    let p = Position { x: 0, y: 0 };
    // 50 world units = 500 tenths: within the 70-unit reach.
    assert!(in_melee_range(Position { x: 500, y: 0 }, p));
    // Exactly at the threshold: neither within nor beyond.
    assert!(!in_melee_range(Position { x: 700, y: 0 }, p));
    assert!(!beyond_melee_range(Position { x: 700, y: 0 }, p));
    assert!(beyond_melee_range(Position { x: 701, y: 0 }, p));
    // Diagonal: 600, 600 is beyond (distance about 84.8 units).
    assert!(beyond_melee_range(Position { x: 600, y: 600 }, p));
}

#[test]
fn facing_is_strict_per_axis() {
    let from = Position { x: 0, y: 0 };
    let right = Position { x: 500, y: 0 };
    assert!(facing_toward(MoveDir::Right, from, right));
    assert!(!facing_toward(MoveDir::Left, from, right));
    // Up and Down compare Y only; a target level with the actor fails both.
    assert!(!facing_toward(MoveDir::Up, from, right));
    assert!(!facing_toward(MoveDir::Down, from, right));
}

#[test]
fn swing_at_faced_enemy_in_range_hits() {
    // The enemy sits 50 world units to the player's right.
    let player = Position { x: 5000, y: 5000 };
    let mut enemy = setup_axol();
    enemy.actor.pos = Position { x: 5500, y: 5000 };
    let axols = vec![enemy];
    let outs = check_player_attack(player, MoveDir::Right, &axols);
    assert_eq!(outs.len(), 1);
    match outs[0] {
        SwingOutcome::Hit(amount) => assert!((1..=6).contains(&amount)),
        SwingOutcome::Miss => panic!("swing toward a faced enemy in range must hit"),
    }
}

#[test]
fn swing_facing_away_misses() {
    let player = Position { x: 5000, y: 5000 };
    let mut enemy = setup_axol();
    enemy.actor.pos = Position { x: 5500, y: 5000 };
    let axols = vec![enemy];
    let outs = check_player_attack(player, MoveDir::Left, &axols);
    assert_eq!(outs, vec![SwingOutcome::Miss]);
}

#[test]
fn swing_out_of_range_misses() {
    let player = Position { x: 5000, y: 5000 };
    let mut enemy = setup_axol();
    enemy.actor.pos = Position { x: 5800, y: 5000 };
    let axols = vec![enemy];
    let outs = check_player_attack(player, MoveDir::Right, &axols);
    assert_eq!(outs, vec![SwingOutcome::Miss]);
}

#[test]
fn each_enemy_is_evaluated_independently() {
    let player = Position { x: 0, y: 0 };
    let mut near = setup_axol();
    near.actor.pos = Position { x: 400, y: 0 };
    let mut behind = setup_axol();
    behind.actor.pos = Position { x: -400, y: 0 };
    let mut far = setup_axol();
    far.actor.pos = Position { x: 5000, y: 0 };
    let axols = vec![near, behind, far];
    let outs = check_player_attack(player, MoveDir::Right, &axols);
    assert!(matches!(outs[0], SwingOutcome::Hit(_)));
    assert_eq!(outs[1], SwingOutcome::Miss);
    assert_eq!(outs[2], SwingOutcome::Miss);
    let (hits, misses) = collect_sword_events(&outs);
    assert_eq!(hits.len(), 1);
    assert_eq!(hits[0].target, 0);
    assert_eq!(misses, 2);
}

#[test]
fn bite_waits_for_cooldown_completion() {
    // Adjacent enemy facing the player; fresh 1500 ms cooldown.
    let player_pos = Position { x: 5000, y: 5000 };
    let player_health = Health(20, 20);
    let mut enemy = setup_axol();
    enemy.actor.pos = Position { x: 5010, y: 5000 };
    enemy.actor.move_dir = MoveDir::Left;
    let mut axols = vec![enemy];

    let bites = check_axol_attack(&mut axols, player_pos, player_health, 1000);
    assert!(bites.is_empty());
    let bites = check_axol_attack(&mut axols, player_pos, player_health, 500);
    assert_eq!(bites.len(), 1);
    assert!((1..=6).contains(&bites[0].amount));
    assert_eq!(axols[0].actor.anim_state, AnimState::Attack);

    // No two bites closer together than the cooldown duration.
    let bites = check_axol_attack(&mut axols, player_pos, player_health, 1000);
    assert!(bites.is_empty());
    let bites = check_axol_attack(&mut axols, player_pos, player_health, 499);
    assert!(bites.is_empty());
    let bites = check_axol_attack(&mut axols, player_pos, player_health, 1);
    assert_eq!(bites.len(), 1);
}

#[test]
fn bite_requires_facing() {
    let player_pos = Position { x: 5000, y: 5000 };
    let player_health = Health(20, 20);
    let mut enemy = setup_axol();
    enemy.actor.pos = Position { x: 5010, y: 5000 };
    enemy.actor.move_dir = MoveDir::Right;
    let mut axols = vec![enemy];
    // Cooldown completes, but the enemy faces away: the attempt is spent.
    let bites = check_axol_attack(&mut axols, player_pos, player_health, 1500);
    assert!(bites.is_empty());
    assert_eq!(axols[0].actor.anim_state, AnimState::Idle);
}

#[test]
fn injured_enemy_uses_injured_attack_animation() {
    let player_pos = Position { x: 5000, y: 5000 };
    let mut enemy = setup_axol();
    enemy.actor.pos = Position { x: 5010, y: 5000 };
    enemy.actor.move_dir = MoveDir::Left;
    enemy.actor.health = Health(5, 20);
    let mut axols = vec![enemy];
    let bites = check_axol_attack(&mut axols, player_pos, Health(20, 20), 1500);
    assert_eq!(bites.len(), 1);
    assert_eq!(axols[0].actor.anim_state, AnimState::AttackInjured);
}

#[test]
fn distant_enemy_walks_toward_player() {
    // The spawn point is up and to the right of the player start.
    let mut axols = vec![setup_axol()];
    let walks = walk_to_player(&mut axols, Position { x: 5000, y: 5000 }, Health(20, 20));
    assert_eq!(walks.len(), 1);
    assert_eq!(walks[0].entity, 0);
    // dy (1200) dominates dx (1050) and the enemy is above: walk down.
    assert_eq!(walks[0].direction, MoveDir::Down);
    assert_eq!(axols[0].actor.move_dir, MoveDir::Down);
    assert_eq!(axols[0].actor.anim_state, AnimState::Walk);
}

#[test]
fn adjacent_or_dead_enemies_do_not_walk() {
    let mut near = setup_axol();
    near.actor.pos = Position { x: 5010, y: 5000 };
    let mut dead = setup_axol();
    dead.actor.health = Health(0, 20);
    let mut axols = vec![near, dead];
    let walks = walk_to_player(&mut axols, Position { x: 5000, y: 5000 }, Health(20, 20));
    assert!(walks.is_empty());
    assert_eq!(axols[0].actor.anim_state, AnimState::Idle);
}

#[test]
fn kill_awards_fixed_bonus_and_arms_grace() {
    let mut axols = vec![setup_axol(), setup_axol()];
    axols[0].actor.health = Health(4, 20);
    let mut score = Score(250);
    let hits = {
        let outs = vec![SwingOutcome::Hit(6)];
        let (mut hits, _) = collect_sword_events(&outs);
        hits[0].target = 0;
        hits
    };
    let deaths = handle_axol_damage(&mut axols, &mut score, &hits);
    assert_eq!(deaths, 1);
    // Exactly the fixed bonus per enemy death, and nothing else.
    assert_eq!(score, Score(350));
    assert_eq!(axols[0].actor.health, Health(-2, 20));
    assert_eq!(axols[0].actor.anim_state, AnimState::Dead);
    assert_eq!(axols[0].actor.anim_frame.0, 0);
    let grace = axols[0].despawn_grace.expect("despawn grace must be armed on death");
    assert_eq!(grace.duration_ms, 8000);
    assert!(!grace.repeating);
    // The other enemy is untouched, and the score only moved by the bonus.
    assert_eq!(axols[1].actor.health, Health(20, 20));
}

#[test]
fn surviving_hit_changes_only_health() {
    let mut axols = vec![setup_axol()];
    let mut score = Score(0);
    let outs = vec![SwingOutcome::Hit(6)];
    let (hits, _) = collect_sword_events(&outs);
    let deaths = handle_axol_damage(&mut axols, &mut score, &hits);
    assert_eq!(deaths, 0);
    assert_eq!(score, Score(0));
    assert_eq!(axols[0].actor.health, Health(14, 20));
    assert_eq!(axols[0].actor.anim_state, AnimState::Idle);
    assert!(axols[0].despawn_grace.is_none());
}

#[test]
fn second_hit_on_dead_enemy_is_dropped() {
    let mut axols = vec![setup_axol()];
    axols[0].actor.health = Health(2, 20);
    let mut score = Score(0);
    let outs = vec![SwingOutcome::Hit(3)];
    let (hits, _) = collect_sword_events(&outs);
    let deaths = handle_axol_damage(&mut axols, &mut score, &hits);
    assert_eq!(deaths, 1);
    assert_eq!(axols[0].actor.health, Health(-1, 20));
    // The same target hit again: silently ignored, no second death.
    let deaths = handle_axol_damage(&mut axols, &mut score, &hits);
    assert_eq!(deaths, 0);
    assert_eq!(axols[0].actor.health, Health(-1, 20));
    assert_eq!(score, Score(100));
}

#[test]
fn player_bites_apply_in_order_until_death() {
    let mut h = Health(5, 20);
    let bites = vec![
        AxolBiteEvent { amount: 3 },
        AxolBiteEvent { amount: 4 },
        AxolBiteEvent { amount: 6 },
    ];
    let died = handle_player_damage(&mut h, &bites);
    assert!(died);
    // 5 - 3 = 2, then 2 - 4 = -2, then the last bite is dropped.
    assert_eq!(h, Health(-2, 20));
}

#[test]
fn no_bites_no_death() {
    let mut h = Health(5, 20);
    let died = handle_player_damage(&mut h, &vec![]);
    assert!(!died);
    assert_eq!(h, Health(5, 20));
}

#[test]
fn despawn_waits_out_the_grace_period() {
    // A killing blow leaves a corpse with a fresh 8-second grace timer.
    let mut axols = vec![setup_axol()];
    axols[0].actor.health = Health(1, 20);
    let mut score = Score(0);
    let outs = vec![SwingOutcome::Hit(1)];
    let (hits, _) = collect_sword_events(&outs);
    handle_axol_damage(&mut axols, &mut score, &hits);
    assert!(axols[0].despawn_grace.is_some());

    despawn_dead_entities(&mut axols, 7999);
    assert_eq!(axols.len(), 1);
    despawn_dead_entities(&mut axols, 1);
    assert_eq!(axols.len(), 0);
}

#[test]
fn death_animation_finishes_before_despawn() {
    // Kill an enemy, then advance animation and the despawn sweep together
    // at a fixed tick rate: the five-frame death sequence must reach and
    // hold its last frame well before the grace period removes the corpse.
    let mut axols = vec![setup_axol()];
    axols[0].actor.health = Health(1, 20);
    let mut score = Score(0);
    let outs = vec![SwingOutcome::Hit(1)];
    let (hits, _) = collect_sword_events(&outs);
    handle_axol_damage(&mut axols, &mut score, &hits);

    let table = setup_axol_animations();
    let mut last_frame = 0;
    let mut steps = 0;
    while !axols.is_empty() {
        let mut a = axols[0];
        animate(&mut a.actor, &table, 400).unwrap();
        assert_eq!(a.actor.anim_state, AnimState::Dead);
        last_frame = a.actor.anim_frame.0;
        axols[0] = a;
        despawn_dead_entities(&mut axols, 400);
        steps += 1;
        assert!(steps <= 30, "the grace period must end");
    }
    assert_eq!(last_frame, 4);
}

#[test]
fn despawn_leaves_living_enemies_alone() {
    let mut axols = vec![setup_axol()];
    despawn_dead_entities(&mut axols, 10000);
    assert_eq!(axols.len(), 1);
    assert_eq!(axols[0].actor.health, Health(20, 20));
}
