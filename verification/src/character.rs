//! Rules by which characters turn, start and finish walking from tile to tile.

use vstd::prelude::*;

use crate::grid::{Grid, GridPosition, GridSize, Neighbor};
use crate::math::{IVec2, UVec2};
use crate::tile::{Passability, Tile, TileEdge};

pub mod asset;

verus! {

/// Speed of a walking character, in world units per fixed update.
pub const PLAYER_SPEED: u32 = 2;

/// The direction a character faces.
#[derive(PartialEq, Eq, Clone, Copy, Debug, Hash, Structural)]
pub enum Orientation {
    Up,
    Left,
    Right,
    Down,
}

impl Default for Orientation {
    fn default() -> (o: Orientation)
        ensures
            o == Orientation::Down,
    {
        Orientation::Down
    }
}

impl Orientation {
    /// The grid offset of one step in this direction; `y` grows downwards.
    pub open spec fn step(self) -> (int, int) {
        match self {
            Orientation::Up => (0, -1),
            Orientation::Left => (-1, 0),
            Orientation::Right => (1, 0),
            Orientation::Down => (0, 1),
        }
    }

    /// The neighbouring tile this orientation faces.
    pub open spec fn facing(self) -> Neighbor {
        match self {
            Orientation::Up => Neighbor::Top,
            Orientation::Left => Neighbor::Left,
            Orientation::Right => Neighbor::Right,
            Orientation::Down => Neighbor::Bottom,
        }
    }

    /// The orientation after a quarter turn clockwise.
    pub open spec fn turned(self) -> Orientation {
        match self {
            Orientation::Up => Orientation::Right,
            Orientation::Right => Orientation::Down,
            Orientation::Down => Orientation::Left,
            Orientation::Left => Orientation::Up,
        }
    }

    pub fn grid_direction(&self) -> (v: IVec2)
        ensures
            v.x == self.step().0,
            v.y == self.step().1,
    {
        match self {
            Orientation::Up => IVec2::new(0, -1),
            Orientation::Left => IVec2::new(-1, 0),
            Orientation::Right => IVec2::new(1, 0),
            Orientation::Down => IVec2::new(0, 1),
        }
    }

    pub fn as_neighbor(&self) -> (n: Neighbor)
        ensures
            n == self.facing(),
    {
        match self {
            Orientation::Up => Neighbor::Top,
            Orientation::Left => Neighbor::Left,
            Orientation::Right => Neighbor::Right,
            Orientation::Down => Neighbor::Bottom,
        }
    }

    pub fn rotate(self) -> (o: Orientation)
        ensures
            o == self.turned(),
    {
        match self {
            Orientation::Up => Orientation::Right,
            Orientation::Right => Orientation::Down,
            Orientation::Down => Orientation::Left,
            Orientation::Left => Orientation::Up,
        }
    }
}

/// The neighbour an orientation faces lies one step in that orientation's direction.
pub proof fn lemma_facing_matches_direction(o: Orientation)
    ensures
        o.facing().offset() == o.step(),
{
}

/// A quarter turn is clockwise: up, right, down, left, and up again; and each orientation
/// steps one tile in its own direction, `y` growing downwards.
pub proof fn lemma_orientation_compass(o: Orientation)
    ensures
        Orientation::Up.turned() == Orientation::Right,
        Orientation::Right.turned() == Orientation::Down,
        Orientation::Down.turned() == Orientation::Left,
        Orientation::Left.turned() == Orientation::Up,
        Orientation::Up.step() == (0int, -1int),
        Orientation::Down.step() == (0int, 1int),
        Orientation::Left.step() == (-1int, 0int),
        Orientation::Right.step() == (1int, 0int),
        o.step().0 * o.step().0 + o.step().1 * o.step().1 == 1,
{
}

/// Four quarter turns bring a character back to where it faced, and no fewer do.
pub proof fn lemma_rotate_cycle(o: Orientation)
    ensures
        o.turned().turned().turned().turned() == o,
        o.turned() != o,
        o.turned().turned() != o,
        o.turned().turned().turned() != o,
{
}

/// Whether a character stands still or walks.
#[derive(PartialEq, Eq, Clone, Copy, Debug, Structural)]
pub enum CharacterState {
    Standing,
    Walking,
}

impl Default for CharacterState {
    fn default() -> (s: CharacterState)
        ensures
            s == CharacterState::Standing,
    {
        CharacterState::Standing
    }
}

impl CharacterState {
    pub fn is_moving(&self) -> (r: bool)
        ensures
            r == (*self == CharacterState::Walking),
    {
        match self {
            CharacterState::Walking => true,
            CharacterState::Standing => false,
        }
    }
}

/// The directions a character is asked to walk in.
#[derive(Clone, Copy, Debug, PartialEq, Eq, Structural)]
pub struct CharacterController {
    pub up: bool,
    pub down: bool,
    pub left: bool,
    pub right: bool,
}

impl Default for CharacterController {
    fn default() -> (c: CharacterController)
        ensures
            c == (CharacterController { up: false, down: false, left: false, right: false }),
    {
        CharacterController { up: false, down: false, left: false, right: false }
    }
}

impl CharacterController {
    /// Some direction is asked for.
    pub open spec fn active(self) -> bool {
        self.up || self.down || self.left || self.right
    }

    /// The orientation asked for, preferring up, then left, right and down.
    pub open spec fn wanted(self) -> Option<Orientation> {
        if self.up {
            Some(Orientation::Up)
        } else if self.left {
            Some(Orientation::Left)
        } else if self.right {
            Some(Orientation::Right)
        } else if self.down {
            Some(Orientation::Down)
        } else {
            None
        }
    }

    pub fn state(&self) -> (s: CharacterState)
        ensures
            s == (if self.active() {
                CharacterState::Walking
            } else {
                CharacterState::Standing
            }),
    {
        if self.up || self.down || self.left || self.right {
            CharacterState::Walking
        } else {
            CharacterState::Standing
        }
    }

    pub fn orientation(&self) -> (o: Option<Orientation>)
        ensures
            o == self.wanted(),
    {
        if self.up {
            Some(Orientation::Up)
        } else if self.left {
            Some(Orientation::Left)
        } else if self.right {
            Some(Orientation::Right)
        } else if self.down {
            Some(Orientation::Down)
        } else {
            None
        }
    }

    /// Asks to walk along the signs of `direction`.
    pub fn set_direction(&mut self, direction: IVec2)
        ensures
            final(self).left == (direction.x < 0),
            final(self).right == (direction.x > 0),
            final(self).up == (direction.y < 0),
            final(self).down == (direction.y > 0),
    {
        if direction.x < 0 {
            self.left = true;
            self.right = false;
        } else if direction.x == 0 {
            self.left = false;
            self.right = false;
        } else if direction.x > 0 {
            self.left = false;
            self.right = true;
        }
        if direction.y < 0 {
            self.down = false;
            self.up = true;
        } else if direction.y == 0 {
            self.down = false;
            self.up = false;
        } else if direction.y > 0 {
            self.down = true;
            self.up = false;
        }
    }

    /// Stops asking for any direction.
    pub fn reset(&mut self)
        ensures
            !final(self).active(),
            *final(self) == (CharacterController {
                up: false,
                down: false,
                left: false,
                right: false,
            }),
    {
        *self = Self::default();
    }
}

/// A controller set to a direction walks exactly when the direction is not zero, and faces
/// the vertical part of the direction first.
pub proof fn lemma_set_direction_walks(c: CharacterController, d: IVec2)
    requires
        c.left == (d.x < 0),
        c.right == (d.x > 0),
        c.up == (d.y < 0),
        c.down == (d.y > 0),
    ensures
        c.active() <==> (d.x != 0 || d.y != 0),
        d.y < 0 ==> c.wanted() == Some(Orientation::Up),
        d.y == 0 && d.x < 0 ==> c.wanted() == Some(Orientation::Left),
        d.y == 0 && d.x > 0 ==> c.wanted() == Some(Orientation::Right),
        d.y > 0 && d.x == 0 ==> c.wanted() == Some(Orientation::Down),
{
}

/// The points a character walks through, optionally starting over at the first.
#[derive(Clone, Debug)]
pub struct Route {
    pub targets: Vec<UVec2>,
    pub cycle: bool,
}

/// A coordinate read as a signed 32-bit integer, wrapping around as a cast does.
pub open spec fn signed(v: u32) -> int {
    if v <= i32::MAX {
        v as int
    } else {
        v - 0x1_0000_0000
    }
}

/// `v` is a signed 32-bit integer.
pub open spec fn fits_i32(v: int) -> bool {
    i32::MIN <= v <= i32::MAX
}

/// A cast of a coordinate to a signed 32-bit integer wraps around.
proof fn lemma_signed(v: u32)
    ensures
        (v as i32) as int == signed(v),
{
    assert(v <= 0x7fff_ffff ==> (v as i32) as int == v as int) by (bit_vector);
    assert(v > 0x7fff_ffff ==> (v as i32) as int == v as int - 0x1_0000_0000) by (bit_vector);
}

/// The direction to walk from `current` towards the target at `next`, coordinates read as
/// signed: straight when the target shares a row or column with `current`; otherwise
/// vertically when the leg from the previous target to this one grows more in `y` than in
/// `x`, else horizontally.
pub open spec fn route_direction(targets: Seq<UVec2>, next: int, current: UVec2) -> (int, int) {
    let target = targets[next];
    if target.x != current.x && target.y != current.y {
        let previous = targets[if next == 0 {
            targets.len() - 1
        } else {
            next - 1
        }];
        let dx = signed(target.x) - signed(previous.x);
        let dy = signed(target.y) - signed(previous.y);
        if dy > dx {
            (0, signed(target.y) - signed(current.y))
        } else {
            (signed(target.x) - signed(current.x), 0)
        }
    } else {
        (signed(target.x) - signed(current.x), signed(target.y) - signed(current.y))
    }
}

/// Every difference `route_direction` takes for this step is a signed 32-bit integer.
pub open spec fn route_direction_fits(targets: Seq<UVec2>, next: int, current: UVec2) -> bool {
    let target = targets[next];
    if target.x != current.x && target.y != current.y {
        let previous = targets[if next == 0 {
            targets.len() - 1
        } else {
            next - 1
        }];
        let dx = signed(target.x) - signed(previous.x);
        let dy = signed(target.y) - signed(previous.y);
        &&& fits_i32(dx)
        &&& fits_i32(dy)
        &&& if dy > dx {
            fits_i32(signed(target.y) - signed(current.y))
        } else {
            fits_i32(signed(target.x) - signed(current.x))
        }
    } else {
        fits_i32(signed(target.x) - signed(current.x)) && fits_i32(signed(target.y) - signed(current.y))
    }
}

/// The direction towards the target at `next` heads for it: when the target shares a row or
/// a column with `current` it is exactly the target minus `current` (coordinates read as
/// signed; plain differences when they fit), whatever the previous target; otherwise it moves
/// along one axis only, by the full signed difference on that axis; it is zero exactly when
/// the character stands on the target.
pub proof fn lemma_route_direction_heads_for_target(targets: Seq<UVec2>, next: int, current: UVec2)
    requires
        0 <= next < targets.len(),
    ensures
        ({
            let t = targets[next];
            let d = route_direction(targets, next, current);
            let dx = signed(t.x) - signed(current.x);
            let dy = signed(t.y) - signed(current.y);
            &&& (t.x == current.x || t.y == current.y) ==> d == (dx, dy)
            &&& (t.x == current.x || t.y == current.y) && t.x <= i32::MAX && t.y <= i32::MAX
                && current.x <= i32::MAX && current.y <= i32::MAX ==> d == (
                t.x - current.x,
                t.y - current.y,
            )
            &&& (t.x != current.x && t.y != current.y) ==> (d == (dx, 0int) || d == (0int, dy))
            &&& d.0 == 0 || d.1 == 0
            &&& (d == (0int, 0int) <==> t == current)
        }),
{
    let t = targets[next];
    assert(signed(t.x) == signed(current.x) ==> t.x == current.x);
    assert(signed(t.y) == signed(current.y) ==> t.y == current.y);
}

/// What a character does on its own.
#[derive(Clone, Debug)]
pub enum CharacterBehaviour {
    Walking { route: Route, next: usize },
}

impl CharacterBehaviour {
    /// Starts walking a route at its first target.
    pub fn from_asset(value: asset::CharacterBehaviour) -> (b: CharacterBehaviour)
        ensures
            value matches asset::CharacterBehaviour::Walking(route) && b matches CharacterBehaviour::Walking {
                route: r,
                next,
            } && r.targets@ == route.targets@ && r.cycle == route.cycle && next == 0,
    {
        match value {
            asset::CharacterBehaviour::Walking(route) => CharacterBehaviour::Walking { route, next: 0 },
        }
    }

    /// The direction in which the character walks from `current`; the differences it takes
    /// must not overflow a signed 32-bit integer.
    pub fn direction(&self, current: UVec2) -> (d: IVec2)
        requires
            *self matches CharacterBehaviour::Walking { route, next } && next < route.targets@.len()
                && route_direction_fits(route.targets@, next as int, current),
        ensures
            *self matches CharacterBehaviour::Walking { route, next } && (d.x as int, d.y as int) == route_direction(
                route.targets@,
                next as int,
                current,
            ),
            d.x == 0 || d.y == 0,
    {
        match self {
            CharacterBehaviour::Walking { route, next } => {
                let next_pos = route.targets[*next];
                let (tx, ty) = (next_pos.x as i32, next_pos.y as i32);
                let (cx, cy) = (current.x as i32, current.y as i32);
                proof {
                    lemma_signed(next_pos.x);
                    lemma_signed(next_pos.y);
                    lemma_signed(current.x);
                    lemma_signed(current.y);
                }
                if next_pos.x != current.x && next_pos.y != current.y {
                    let previous_index = if *next == 0 {
                        route.targets.len() - 1
                    } else {
                        *next - 1
                    };
                    let previous_pos = route.targets[previous_index];
                    proof {
                        lemma_signed(previous_pos.x);
                        lemma_signed(previous_pos.y);
                    }
                    let diff_x = tx - previous_pos.x as i32;
                    let diff_y = ty - previous_pos.y as i32;
                    if diff_y > diff_x {
                        IVec2::new(0, ty - cy)
                    } else {
                        IVec2::new(tx - cx, 0)
                    }
                } else {
                    IVec2::new(tx - cx, ty - cy)
                }
            },
        }
    }

    /// Notes that the character arrived on `current`; returns whether the behaviour is over.
    /// Reaching the awaited target moves on to the following one on a cycling route, and ends
    /// the behaviour on any other route.
    pub fn reached_tile(&mut self, current: UVec2) -> (finished: bool)
        requires
            *old(self) matches CharacterBehaviour::Walking { route, next } && next < route.targets@.len(),
        ensures
            *old(self) matches CharacterBehaviour::Walking { route, next } && *final(self) matches CharacterBehaviour::Walking {
                route: route2,
                next: next2,
            } && route2.targets@ == route.targets@ && route2.cycle == route.cycle && next2 < route.targets@.len() && {
                if current != route.targets@[next as int] {
                    !finished && next2 == next
                } else if route.cycle {
                    &&& !finished
                    &&& next2 == (if next == route.targets@.len() - 1 {
                        0
                    } else {
                        next + 1
                    })
                } else {
                    finished && next2 == next
                }
            },
    {
        match self {
            CharacterBehaviour::Walking { route, next } => {
                let next_pos = route.targets[*next];
                if current == next_pos {
                    if route.cycle {
                        if *next == route.targets.len() - 1 {
                            *next = 0;
                        } else {
                            *next = *next + 1;
                        }
                        false
                    } else {
                        true
                    }
                } else {
                    false
                }
            },
        }
    }
}

/// What one update of a character's state decided.
#[derive(Clone, Copy, Debug, PartialEq, Eq, Structural)]
pub struct CharacterUpdate {
    pub orientation: Orientation,
    pub state: CharacterState,
    /// A standing character turned: it waits a moment before walking.
    pub insert_turning_delay: bool,
    /// The character starts walking onto the tile it faces.
    pub start_tile_transition: bool,
    /// The character stopped while still waiting to walk.
    pub remove_turning_delay: bool,
}

/// One update of a character that is not between two tiles.
pub open spec fn character_update(
    orientation: Orientation,
    state: CharacterState,
    controller: CharacterController,
    has_turning_delay: bool,
) -> CharacterUpdate {
    let turned = controller.wanted() matches Some(o) && o != orientation;
    let new_orientation = if turned {
        controller.wanted().unwrap()
    } else {
        orientation
    };
    let walking = controller.active();
    CharacterUpdate {
        orientation: new_orientation,
        state: if walking {
            CharacterState::Walking
        } else {
            CharacterState::Standing
        },
        insert_turning_delay: turned && state == CharacterState::Standing,
        start_tile_transition: walking && !has_turning_delay && !turned,
        remove_turning_delay: !walking && has_turning_delay,
    }
}

/// Decides how a character that is not between two tiles turns and whether it starts
/// walking, given what its controller asks for.
pub fn update_character_state(
    orientation: Orientation,
    state: CharacterState,
    controller: &CharacterController,
    has_turning_delay: bool,
) -> (u: CharacterUpdate)
    ensures
        u == character_update(orientation, state, *controller, has_turning_delay),
{
    let mut orientation = orientation;
    let mut insert_turning_delay = false;
    let mut orientation_changed = false;
    if let Some(new_orientation) = controller.orientation() {
        if new_orientation != orientation {
            orientation = new_orientation;
            if !state.is_moving() {
                insert_turning_delay = true;
            }
            orientation_changed = true;
        }
    }
    let new_state = controller.state();
    let mut start_tile_transition = false;
    let mut remove_turning_delay = false;
    if new_state.is_moving() {
        if !has_turning_delay && !orientation_changed {
            start_tile_transition = true;
        }
    } else if has_turning_delay {
        remove_turning_delay = true;
    }
    CharacterUpdate {
        orientation,
        state: new_state,
        insert_turning_delay,
        start_tile_transition,
        remove_turning_delay,
    }
}

/// A character only starts walking when asked to, facing the way it already faced; a
/// standing character that turns waits instead of walking in the same update.
pub proof fn lemma_walk_starts_without_turning(
    orientation: Orientation,
    state: CharacterState,
    controller: CharacterController,
    has_turning_delay: bool,
)
    ensures
        ({
            let u = character_update(orientation, state, controller, has_turning_delay);
            &&& u.start_tile_transition ==> u.state == CharacterState::Walking && u.orientation == orientation
            &&& u.insert_turning_delay ==> !u.start_tile_transition
            &&& !(u.insert_turning_delay && u.remove_turning_delay)
        }),
{
}

/// What one update does, case by case, with the direction a controller asks for read off
/// its buttons (up first, then left, right and down):
/// - asked for the way it already faces, with no turning delay pending, the character walks
///   on and starts a tile transition, whether it was standing or walking;
/// - asked for that way while a turning delay is pending, it walks but waits;
/// - asked for another way, it turns to that way and walks, but starts no transition in this
///   update; it waits with a turning delay exactly when it was standing;
/// - asked for nothing, it stands, keeps its orientation, and drops a pending delay.
pub proof fn lemma_character_update_cases(
    orientation: Orientation,
    state: CharacterState,
    controller: CharacterController,
    has_turning_delay: bool,
)
    ensures
        ({
            let c = controller;
            let asked = if c.up {
                Some(Orientation::Up)
            } else if c.left {
                Some(Orientation::Left)
            } else if c.right {
                Some(Orientation::Right)
            } else if c.down {
                Some(Orientation::Down)
            } else {
                None::<Orientation>
            };
            let u = character_update(orientation, state, controller, has_turning_delay);
            &&& asked == Some(orientation) && !has_turning_delay ==> {
                &&& u.start_tile_transition
                &&& u.state == CharacterState::Walking
                &&& u.orientation == orientation
                &&& !u.insert_turning_delay
                &&& !u.remove_turning_delay
            }
            &&& asked == Some(orientation) && has_turning_delay ==> {
                &&& !u.start_tile_transition
                &&& u.state == CharacterState::Walking
                &&& u.orientation == orientation
                &&& !u.insert_turning_delay
                &&& !u.remove_turning_delay
            }
            &&& (asked matches Some(o) && o != orientation) ==> {
                &&& u.orientation == asked.unwrap()
                &&& u.state == CharacterState::Walking
                &&& !u.start_tile_transition
                &&& (u.insert_turning_delay <==> state == CharacterState::Standing)
                &&& !u.remove_turning_delay
            }
            &&& asked is None ==> {
                &&& u.orientation == orientation
                &&& u.state == CharacterState::Standing
                &&& !u.start_tile_transition
                &&& !u.insert_turning_delay
                &&& (u.remove_turning_delay <==> has_turning_delay)
            }
        }),
{
}

/// Where a character is on its way between two tiles.
#[derive(PartialEq, Eq, Clone, Copy, Debug, Structural)]
pub enum TileTransitionState {
    LeavingTile,
    EnteringTile,
}

/// A character walking from one tile to the next.
#[derive(Clone, Copy, Debug, PartialEq, Eq, Structural)]
pub struct TileTransition {
    pub from: UVec2,
    pub to: UVec2,
    pub state: TileTransitionState,
}

/// What a step of a walking character produced.
#[derive(Clone, Copy, Debug, PartialEq, Eq, Structural)]
pub enum TransitionStep {
    /// Still on the way.
    Moving,
    /// Passed the middle between the two tiles.
    EnteredTile(TileEdge),
    /// Arrived on the target tile; the transition is over.
    ReachedTile(TileEdge),
}

impl TileTransition {
    /// The edge this transition walks along.
    pub open spec fn edge(self) -> TileEdge {
        TileEdge { from: self.from, to: self.to }
    }

    /// Advances the transition once the character moved; `half_covered` and `full_covered`
    /// tell whether it is at least half a tile, or a whole tile, away from where it started.
    pub fn advance(&mut self, half_covered: bool, full_covered: bool) -> (step: TransitionStep)
        ensures
            final(self).from == old(self).from,
            final(self).to == old(self).to,
            old(self).state == TileTransitionState::LeavingTile ==> if half_covered {
                step == TransitionStep::EnteredTile(old(self).edge()) && final(self).state
                    == TileTransitionState::EnteringTile
            } else {
                step == TransitionStep::Moving && final(self).state == old(self).state
            },
            old(self).state == TileTransitionState::EnteringTile ==> final(self).state
                == old(self).state && if full_covered {
                step == TransitionStep::ReachedTile(old(self).edge())
            } else {
                step == TransitionStep::Moving
            },
    {
        let edge = TileEdge { from: self.from, to: self.to };
        match self.state {
            TileTransitionState::LeavingTile => {
                if half_covered {
                    self.state = TileTransitionState::EnteringTile;
                    TransitionStep::EnteredTile(edge)
                } else {
                    TransitionStep::Moving
                }
            },
            TileTransitionState::EnteringTile => {
                if full_covered {
                    TransitionStep::ReachedTile(edge)
                } else {
                    TransitionStep::Moving
                }
            },
        }
    }
}

/// The tiles after a character left `origin` for `target`: the target is taken, the origin
/// is free again.
pub open spec fn tiles_after_move(tiles: Seq<Option<Tile>>, origin: int, target: int) -> Seq<Option<Tile>> {
    let taken = tiles.update(target, Some(Tile { passability: tiles[target].unwrap().passability, blocked: true }));
    match taken[origin] {
        Some(t) => taken.update(origin, Some(Tile { passability: t.passability, blocked: false })),
        None => taken,
    }
}

/// The tile a character at `origin` facing `orientation` would walk onto, if it can.
pub open spec fn walk_target(origin: GridPosition, orientation: Orientation, tiles: Seq<Option<Tile>>) -> Option<UVec2> {
    let size = origin.size();
    match size.step(origin.point(), orientation.facing().offset()) {
        Some(t) => match tiles[size.index_of(t)] {
            Some(tile) => if tile.walkable() {
                Some(t)
            } else {
                None
            },
            None => None,
        },
        None => None,
    }
}

/// The tile a character walks onto is the one next to it in the direction it faces (`y`
/// grows downwards), and only if that tile lies inside the grid, exists, can always be
/// passed (`Passability::Always`; a bike, surf, waterfall or never tile refuses) and is not
/// taken.
pub proof fn lemma_walk_target_rules(origin: GridPosition, orientation: Orientation, tiles: Seq<Option<Tile>>)
    requires
        origin.size().contains_spec(origin.point()),
    ensures
        ({
            let p = origin.point();
            let w = origin.size().width as int;
            let h = origin.size().height as int;
            let faced: Option<(int, int)> = match orientation {
                Orientation::Up => if p.y > 0 {
                    Some((p.x as int, p.y - 1))
                } else {
                    None
                },
                Orientation::Down => if p.y + 1 < h {
                    Some((p.x as int, p.y + 1))
                } else {
                    None
                },
                Orientation::Left => if p.x > 0 {
                    Some((p.x - 1, p.y as int))
                } else {
                    None
                },
                Orientation::Right => if p.x + 1 < w {
                    Some((p.x + 1, p.y as int))
                } else {
                    None
                },
            };
            match walk_target(origin, orientation, tiles) {
                Some(t) => faced == Some((t.x as int, t.y as int)) && (tiles[t.y * w + t.x] matches Some(tile)
                    && tile.passability == Passability::Always && !tile.blocked),
                None => match faced {
                    Some((x, y)) => !(tiles[y * w + x] matches Some(tile) && tile.passability
                        == Passability::Always && !tile.blocked),
                    None => true,
                },
            }
        }),
{
}

/// Moving from the tile at index `origin` to the tile at index `target` takes the target,
/// keeping its passability, frees the origin if there is a tile there, and leaves every other
/// tile as it was.
pub proof fn lemma_move_takes_target_frees_origin(tiles: Seq<Option<Tile>>, origin: int, target: int)
    requires
        0 <= origin < tiles.len(),
        0 <= target < tiles.len(),
        origin != target,
        tiles[target] is Some,
    ensures
        ({
            let after = tiles_after_move(tiles, origin, target);
            &&& after.len() == tiles.len()
            &&& after[target] == Some(Tile { passability: tiles[target].unwrap().passability, blocked: true })
            &&& tiles[origin] is None ==> after[origin] is None
            &&& tiles[origin] matches Some(o) ==> after[origin] == Some(
                Tile { passability: o.passability, blocked: false },
            )
            &&& forall|i: int| 0 <= i < tiles.len() && i != origin && i != target ==> after[i] == tiles[i]
        }),
{
}

/// Starts moving a character at `origin` one tile in the direction it faces, if that tile
/// exists, can always be passed and is not taken; the target is then taken and the origin
/// freed.
pub fn start_tile_transition(
    origin: GridPosition,
    orientation: Orientation,
    tiles: &mut Grid<Option<Tile>>,
) -> (r: Option<TileTransition>)
    requires
        old(tiles)@.len() >= origin.size().area(),
        origin.size().area() <= u32::MAX + 1,
    ensures
        match walk_target(origin, orientation, old(tiles)@) {
            Some(t) => {
                &&& r == Some(
                    TileTransition { from: origin.point(), to: t, state: TileTransitionState::LeavingTile },
                )
                &&& final(tiles)@ == tiles_after_move(
                    old(tiles)@,
                    origin.size().index_of(origin.point()),
                    origin.size().index_of(t),
                )
            },
            None => r is None && final(tiles)@ == old(tiles)@,
        },
{
    let size = origin.grid_size();
    let from = origin.as_uvec2();
    proof {
        crate::grid::lemma_index_in_range(size, from);
    }
    let target = match origin.neighbor(&orientation.as_neighbor()) {
        Some(t) => t,
        None => return None,
    };
    let to = target.as_uvec2();
    proof {
        crate::grid::lemma_index_in_range(size, to);
    }
    let target_tile = match tiles.index_position(target) {
        Some(t) => *t,
        None => return None,
    };
    if target_tile.passability != Passability::Always || target_tile.blocked {
        return None;
    }
    *tiles.index_position_mut(target) = Some(
        Tile { passability: target_tile.passability, blocked: true },
    );
    let origin_tile = *tiles.index_position(origin);
    if let Some(o) = origin_tile {
        *tiles.index_position_mut(origin) = Some(Tile { passability: o.passability, blocked: false });
    }
    Some(TileTransition { from, to, state: TileTransitionState::LeavingTile })
}

} // verus!
