use axol::actor::Position;
use axol::nowalk::{GridCoords, LevelNoWalk};
use axol::player_movement::{handle_player_run, handle_player_walk, try_move};
use axol::sprite::MoveDir;

fn open_level() -> LevelNoWalk {
    LevelNoWalk::new(vec![GridCoords { x: 1, y: 0 }], 10, 10)
}

#[test]
fn out_of_bounds_is_never_walkable() {
    let nw = open_level();
    assert!(nw.in_nowalk(GridCoords { x: -1, y: 0 }));
    assert!(nw.in_nowalk(GridCoords { x: 0, y: -1 }));
    assert!(nw.in_nowalk(GridCoords { x: 10, y: 0 }));
    assert!(nw.in_nowalk(GridCoords { x: 0, y: 10 }));
}

#[test]
fn marked_cells_are_not_walkable() {
    let nw = open_level();
    assert!(nw.in_nowalk(GridCoords { x: 1, y: 0 }));
    assert!(!nw.in_nowalk(GridCoords { x: 0, y: 0 }));
    assert!(!nw.in_nowalk(GridCoords { x: 9, y: 9 }));
}

#[test]
fn empty_level_rejects_everything() {
    let nw = LevelNoWalk::empty();
    assert!(nw.in_nowalk(GridCoords { x: 0, y: 0 }));
}

#[test]
fn walk_and_run_use_their_speeds() {
    let nw = open_level();
    let mut pos = Position { x: 100, y: 100 };
    assert!(handle_player_walk(&mut pos, MoveDir::Right, &nw));
    assert_eq!(pos, Position { x: 103, y: 100 });
    assert!(handle_player_run(&mut pos, MoveDir::Up, &nw));
    assert_eq!(pos, Position { x: 103, y: 105 });
    assert!(handle_player_walk(&mut pos, MoveDir::Left, &nw));
    assert_eq!(pos, Position { x: 100, y: 105 });
    assert!(handle_player_run(&mut pos, MoveDir::Down, &nw));
    assert_eq!(pos, Position { x: 100, y: 100 });
}

#[test]
fn blocked_move_is_rejected_in_full() {
    let nw = open_level();
    // One walking step to the right would land in cell (1, 0), which is
    // marked: the move is rejected entirely, no partial movement.
    let mut pos = Position { x: 318, y: 0 };
    assert!(!handle_player_walk(&mut pos, MoveDir::Right, &nw));
    assert_eq!(pos, Position { x: 318, y: 0 });
    // A step away from the marked cell still works.
    assert!(handle_player_walk(&mut pos, MoveDir::Left, &nw));
    assert_eq!(pos, Position { x: 315, y: 0 });
}

#[test]
fn leaving_the_level_is_rejected() {
    let nw = open_level();
    let mut pos = Position { x: 1, y: 1 };
    assert!(!handle_player_walk(&mut pos, MoveDir::Left, &nw));
    assert!(!handle_player_walk(&mut pos, MoveDir::Down, &nw));
    assert_eq!(pos, Position { x: 1, y: 1 });
    // The far edge: cell 10 would be out of the 10-cell level.
    let mut edge = Position { x: 3199, y: 0 };
    assert!(!try_move(&mut edge, MoveDir::Right, 1, &nw));
    assert_eq!(edge, Position { x: 3199, y: 0 });
}
