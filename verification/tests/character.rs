use engine::character::asset::{CharacterBehaviour as AssetBehaviour, CharacterState as VisualKey};
use engine::character::{
    start_tile_transition, update_character_state, CharacterBehaviour, CharacterController,
    CharacterState, Orientation, Route, TileTransition, TileTransitionState, TransitionStep,
};
use engine::grid::{Grid, GridPosition, GridSize, Neighbor};
use engine::math::{IVec2, UVec2};
use engine::tile::{Passability, Tile, TileEdge};

fn controller(up: bool, down: bool, left: bool, right: bool) -> CharacterController {
    CharacterController { up, down, left, right }
}

#[test]
fn orientation_rotates_clockwise() {
    assert_eq!(Orientation::Up.rotate(), Orientation::Right);
    assert_eq!(Orientation::Right.rotate(), Orientation::Down);
    assert_eq!(Orientation::Down.rotate(), Orientation::Left);
    assert_eq!(Orientation::Left.rotate(), Orientation::Up);
    for o in [Orientation::Up, Orientation::Down, Orientation::Left, Orientation::Right] {
        assert_eq!(o.rotate().rotate().rotate().rotate(), o);
        assert_eq!(o.as_neighbor().as_ivec2(), o.grid_direction());
    }
    assert_eq!(Orientation::default(), Orientation::Down);
}

#[test]
fn orientation_directions() {
    assert_eq!(Orientation::Up.grid_direction(), IVec2::new(0, -1));
    assert_eq!(Orientation::Left.grid_direction(), IVec2::new(-1, 0));
    assert_eq!(Orientation::Down.as_neighbor(), Neighbor::Bottom);
    assert_eq!(Orientation::Right.as_neighbor(), Neighbor::Right);
}

#[test]
fn controller_state_and_orientation() {
    assert_eq!(CharacterController::default().state(), CharacterState::Standing);
    assert_eq!(CharacterController::default().orientation(), None);
    assert_eq!(controller(false, true, false, false).state(), CharacterState::Walking);
    assert_eq!(controller(true, true, true, true).orientation(), Some(Orientation::Up));
    assert_eq!(controller(false, true, true, true).orientation(), Some(Orientation::Left));
    assert_eq!(controller(false, true, false, true).orientation(), Some(Orientation::Right));
    assert_eq!(controller(false, true, false, false).orientation(), Some(Orientation::Down));
    assert!(CharacterState::Walking.is_moving());
    assert!(!CharacterState::Standing.is_moving());
}

#[test]
fn set_direction_follows_signs() {
    let mut c = CharacterController::default();
    c.set_direction(IVec2::new(-3, 0));
    assert_eq!(c, controller(false, false, true, false));
    c.set_direction(IVec2::new(0, 5));
    assert_eq!(c, controller(false, true, false, false));
    c.set_direction(IVec2::new(2, -1));
    assert_eq!(c, controller(true, false, false, true));
    assert_eq!(c.orientation(), Some(Orientation::Up));
    c.set_direction(IVec2::new(0, 0));
    assert_eq!(c.state(), CharacterState::Standing);
    c.set_direction(IVec2::new(1, 0));
    c.reset();
    assert_eq!(c, CharacterController::default());
}

#[test]
fn standing_character_turning_waits() {
    let u = update_character_state(
        Orientation::Down,
        CharacterState::Standing,
        &controller(false, false, true, false),
        false,
    );
    assert_eq!(u.orientation, Orientation::Left);
    assert_eq!(u.state, CharacterState::Walking);
    assert!(u.insert_turning_delay);
    assert!(!u.start_tile_transition);
    assert!(!u.remove_turning_delay);
}

#[test]
fn walking_on_in_the_same_direction_starts_a_transition() {
    let u = update_character_state(
        Orientation::Left,
        CharacterState::Walking,
        &controller(false, false, true, false),
        false,
    );
    assert!(u.start_tile_transition);
    assert!(!u.insert_turning_delay);
    let delayed = update_character_state(
        Orientation::Left,
        CharacterState::Walking,
        &controller(false, false, true, false),
        true,
    );
    assert!(!delayed.start_tile_transition);
}

#[test]
fn stopping_removes_a_pending_delay() {
    let u = update_character_state(Orientation::Up, CharacterState::Walking, &CharacterController::default(), true);
    assert_eq!(u.state, CharacterState::Standing);
    assert_eq!(u.orientation, Orientation::Up);
    assert!(u.remove_turning_delay);
    assert!(!u.start_tile_transition);
}

#[test]
fn walking_character_turning_does_not_wait() {
    let u = update_character_state(Orientation::Up, CharacterState::Walking, &controller(false, false, false, true), false);
    assert_eq!(u.orientation, Orientation::Right);
    assert!(!u.insert_turning_delay);
    assert!(!u.start_tile_transition);
}

fn route(targets: &[(u32, u32)], cycle: bool) -> Route {
    Route { targets: targets.iter().map(|(x, y)| UVec2::new(*x, *y)).collect(), cycle }
}

#[test]
fn behaviour_walks_straight_towards_aligned_target() {
    let b = CharacterBehaviour::from_asset(AssetBehaviour::Walking(route(&[(5, 2), (5, 8)], true)));
    assert_eq!(b.direction(UVec2::new(1, 2)), IVec2::new(4, 0));
    assert_eq!(b.direction(UVec2::new(5, 2)), IVec2::new(0, 0));
}

#[test]
fn behaviour_walks_diagonal_targets_one_axis_at_a_time() {
    let b = CharacterBehaviour::Walking { route: route(&[(0, 0), (3, 9)], true), next: 1 };
    // the leg from (0, 0) to (3, 9) moves more vertically: go vertically first
    assert_eq!(b.direction(UVec2::new(1, 1)), IVec2::new(0, 8));
    let c = CharacterBehaviour::Walking { route: route(&[(0, 0), (9, 3)], true), next: 1 };
    assert_eq!(c.direction(UVec2::new(1, 1)), IVec2::new(8, 0));
    // the first target looks back at the last one
    let d = CharacterBehaviour::Walking { route: route(&[(4, 4), (0, 0)], true), next: 0 };
    assert_eq!(d.direction(UVec2::new(1, 2)), IVec2::new(3, 0));
}

#[test]
fn behaviour_reads_large_coordinates_as_signed() {
    let b = CharacterBehaviour::Walking { route: route(&[(u32::MAX, 0)], true), next: 0 };
    assert_eq!(b.direction(UVec2::new(0, 0)), IVec2::new(-1, 0));
    assert_eq!(b.direction(UVec2::new(u32::MAX - 2, 0)), IVec2::new(2, 0));
}

#[test]
fn cycling_route_moves_on_and_wraps() {
    let mut b = CharacterBehaviour::Walking { route: route(&[(1, 1), (2, 1)], true), next: 0 };
    assert!(!b.reached_tile(UVec2::new(0, 1)));
    assert!(matches!(b, CharacterBehaviour::Walking { next: 0, .. }));
    assert!(!b.reached_tile(UVec2::new(1, 1)));
    assert!(matches!(b, CharacterBehaviour::Walking { next: 1, .. }));
    assert!(!b.reached_tile(UVec2::new(2, 1)));
    assert!(matches!(b, CharacterBehaviour::Walking { next: 0, .. }));
}

#[test]
fn non_cycling_route_ends_on_reaching_its_target() {
    let mut b = CharacterBehaviour::Walking { route: route(&[(1, 1), (2, 1)], false), next: 0 };
    assert!(!b.reached_tile(UVec2::new(3, 3)));
    assert!(b.reached_tile(UVec2::new(1, 1)));
}

#[test]
fn visual_keys_convert_both_ways() {
    let key = VisualKey::from((CharacterState::Walking, Orientation::Left));
    assert_eq!(key, VisualKey::Walking(Orientation::Left));
    let state: CharacterState = key.into();
    assert_eq!(state, CharacterState::Walking);
    let parts: (CharacterState, Orientation) = VisualKey::Standing(Orientation::Up).into();
    assert_eq!(parts, (CharacterState::Standing, Orientation::Up));
    assert_eq!(VisualKey::default(), VisualKey::Standing(Orientation::Down));
}

fn walkable() -> Option<Tile> {
    Some(Tile { passability: Passability::Always, blocked: false })
}

#[test]
fn transition_takes_target_and_frees_origin() {
    let size = GridSize::new(3, 1);
    let mut tiles = Grid::with_tile(&size, walkable());
    let origin = GridPosition::new(UVec2::new(0, 0), size).unwrap();
    *tiles.index_position_mut(origin) = Some(Tile { passability: Passability::Always, blocked: true });
    let t = start_tile_transition(origin, Orientation::Right, &mut tiles).unwrap();
    assert_eq!(
        t,
        TileTransition { from: UVec2::new(0, 0), to: UVec2::new(1, 0), state: TileTransitionState::LeavingTile }
    );
    let target = GridPosition::new(UVec2::new(1, 0), size).unwrap();
    assert!(tiles.index_position(target).unwrap().blocked);
    assert!(!tiles.index_position(origin).unwrap().blocked);
}

#[test]
fn transition_refused_onto_blocked_impassable_missing_or_outside() {
    let size = GridSize::new(2, 2);
    let mut tiles = Grid::with_tile(&size, walkable());
    let origin = GridPosition::new(UVec2::new(0, 0), size).unwrap();
    // outside the grid
    assert!(start_tile_transition(origin, Orientation::Up, &mut tiles).is_none());
    // blocked
    let right = GridPosition::new(UVec2::new(1, 0), size).unwrap();
    *tiles.index_position_mut(right) = Some(Tile { passability: Passability::Always, blocked: true });
    assert!(start_tile_transition(origin, Orientation::Right, &mut tiles).is_none());
    // impassable
    let below = GridPosition::new(UVec2::new(0, 1), size).unwrap();
    *tiles.index_position_mut(below) = Some(Tile { passability: Passability::Surf, blocked: false });
    assert!(start_tile_transition(origin, Orientation::Down, &mut tiles).is_none());
    // no tile
    *tiles.index_position_mut(below) = None;
    assert!(start_tile_transition(origin, Orientation::Down, &mut tiles).is_none());
    assert!(!tiles.index_position(origin).unwrap().blocked);
}

#[test]
fn transition_enters_then_reaches() {
    let mut t = TileTransition { from: UVec2::new(2, 2), to: UVec2::new(2, 3), state: TileTransitionState::LeavingTile };
    let edge = TileEdge { from: UVec2::new(2, 2), to: UVec2::new(2, 3) };
    assert_eq!(t.advance(false, false), TransitionStep::Moving);
    assert_eq!(t.state, TileTransitionState::LeavingTile);
    assert_eq!(t.advance(true, false), TransitionStep::EnteredTile(edge));
    assert_eq!(t.state, TileTransitionState::EnteringTile);
    assert_eq!(t.advance(true, false), TransitionStep::Moving);
    assert_eq!(t.advance(true, true), TransitionStep::ReachedTile(edge));
}
