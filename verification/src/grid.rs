//! Rectangular tile grids addressed by positions that always lie inside the grid.

use vstd::prelude::*;

use crate::math::{IVec2, UVec2, checked_add_signed, checked_add_signed_spec};

verus! {

/// Width and height of a tile grid, counted in tiles.
#[derive(Clone, Copy, Debug)]
pub struct GridSize {
    pub width: u32,
    pub height: u32,
}

impl GridSize {
    /// Number of tiles in the grid, as a mathematical integer.
    pub open spec fn area(self) -> int {
        self.width * self.height
    }

    /// Whether `p` addresses a tile of the grid.
    pub open spec fn contains_spec(self, p: UVec2) -> bool {
        p.x < self.width && p.y < self.height
    }

    /// Row-major index of `p`.
    pub open spec fn index_of(self, p: UVec2) -> int {
        p.y * self.width + p.x
    }

    /// The point reached from `p` by the offset `(dx, dy)`, if it lies inside the grid.
    pub open spec fn step(self, p: UVec2, offset: (int, int)) -> Option<UVec2> {
        let nx = p.x + offset.0;
        let ny = p.y + offset.1;
        if 0 <= nx < self.width && 0 <= ny < self.height {
            Some(UVec2 { x: nx as u32, y: ny as u32 })
        } else {
            None
        }
    }

    pub fn new(width: u32, height: u32) -> (s: GridSize)
        ensures
            s.width == width,
            s.height == height,
    {
        GridSize { width, height }
    }

    pub fn width(&self) -> (w: u32)
        ensures
            w == self.width,
    {
        self.width
    }

    pub fn height(&self) -> (h: u32)
        ensures
            h == self.height,
    {
        self.height
    }

    pub fn as_uvec2(&self) -> (v: UVec2)
        ensures
            v == (UVec2 { x: self.width, y: self.height }),
    {
        UVec2 { x: self.width, y: self.height }
    }

    /// Number of tiles; the product must fit the coordinate type.
    pub fn tile_count(&self) -> (n: u32)
        requires
            self.area() <= u32::MAX,
        ensures
            n == self.area(),
    {
        self.width * self.height
    }

    /// Whether `position` addresses a tile of this grid.
    pub fn contains(&self, position: UVec2) -> (r: bool)
        ensures
            r == self.contains_spec(position),
    {
        position.x < self.width() && position.y < self.height()
    }
}

/// The eight tiles surrounding a tile.
#[derive(Clone, Copy, PartialEq, Eq, Hash, Debug, Structural)]
pub enum Neighbor {
    TopLeft,
    Top,
    TopRight,
    Left,
    Right,
    BottomLeft,
    Bottom,
    BottomRight,
}

impl Neighbor {
    /// Offset from a tile to this neighbour; `y` grows downwards.
    pub open spec fn offset(self) -> (int, int) {
        match self {
            Neighbor::TopLeft => (-1, -1),
            Neighbor::Top => (0, -1),
            Neighbor::TopRight => (1, -1),
            Neighbor::Left => (-1, 0),
            Neighbor::Right => (1, 0),
            Neighbor::BottomLeft => (-1, 1),
            Neighbor::Bottom => (0, 1),
            Neighbor::BottomRight => (1, 1),
        }
    }

    /// The neighbour in the opposite direction.
    pub open spec fn opposite(self) -> Neighbor {
        match self {
            Neighbor::TopLeft => Neighbor::BottomRight,
            Neighbor::Top => Neighbor::Bottom,
            Neighbor::TopRight => Neighbor::BottomLeft,
            Neighbor::Left => Neighbor::Right,
            Neighbor::Right => Neighbor::Left,
            Neighbor::BottomLeft => Neighbor::TopRight,
            Neighbor::Bottom => Neighbor::Top,
            Neighbor::BottomRight => Neighbor::TopLeft,
        }
    }

    pub fn as_ivec2(&self) -> (v: IVec2)
        ensures
            v.x == self.offset().0,
            v.y == self.offset().1,
    {
        match self {
            Neighbor::TopLeft => IVec2 { x: -1, y: -1 },
            Neighbor::Top => IVec2::new(0, -1),
            Neighbor::TopRight => IVec2::new(1, -1),
            Neighbor::Left => IVec2::new(-1, 0),
            Neighbor::Right => IVec2::new(1, 0),
            Neighbor::BottomLeft => IVec2::new(-1, 1),
            Neighbor::Bottom => IVec2::new(0, 1),
            Neighbor::BottomRight => IVec2 { x: 1, y: 1 },
        }
    }
}

/// The order in which the surrounding tiles of a position are listed.
pub open spec fn neighbor_order() -> Seq<Neighbor> {
    seq![
        Neighbor::TopLeft,
        Neighbor::Top,
        Neighbor::TopRight,
        Neighbor::Left,
        Neighbor::Right,
        Neighbor::BottomLeft,
        Neighbor::Bottom,
        Neighbor::BottomRight,
    ]
}

/// A tile coordinate together with the size of the grid that contains it.
#[derive(Clone, Copy, Debug)]
pub struct GridPosition {
    pos: UVec2,
    grid_size: GridSize,
}

/// `r` is the position of `target` in a grid of `size`, or `None` exactly when `target` is.
pub open spec fn locates(r: Option<GridPosition>, size: GridSize, target: Option<UVec2>) -> bool {
    match (r, target) {
        (Some(q), Some(t)) => q.point() == t && q.size() == size,
        (None, None) => true,
        _ => false,
    }
}

impl GridPosition {
    #[verifier::type_invariant]
    spec fn inside(self) -> bool {
        self.grid_size.contains_spec(self.pos)
    }

    /// The coordinate of this position.
    pub closed spec fn point(self) -> UVec2 {
        self.pos
    }

    /// The size of the grid this position belongs to.
    pub closed spec fn size(self) -> GridSize {
        self.grid_size
    }

    /// The position of point `p` in a grid of `size` (meaningful when `p` lies inside).
    pub closed spec fn at(size: GridSize, p: UVec2) -> GridPosition {
        GridPosition { pos: p, grid_size: size }
    }

    /// `at` keeps the point and the size it was given.
    pub proof fn lemma_at(size: GridSize, p: UVec2)
        ensures
            Self::at(size, p).point() == p,
            Self::at(size, p).size() == size,
    {
    }

    /// The coordinate of this position.
    pub fn as_uvec2(&self) -> (p: UVec2)
        ensures
            p == self.point(),
            self.size().contains_spec(p),
    {
        proof {
            use_type_invariant(self);
        }
        self.pos
    }

    /// The size of the grid this position belongs to.
    pub fn grid_size(&self) -> (s: GridSize)
        ensures
            s == self.size(),
    {
        self.grid_size
    }

    /// The position of `position` in a grid of `grid_size`, if the grid contains it.
    pub fn new(position: UVec2, grid_size: GridSize) -> (r: Option<GridPosition>)
        ensures
            locates(
                r,
                grid_size,
                if grid_size.contains_spec(position) {
                    Some(position)
                } else {
                    None
                },
            ),
    {
        if grid_size.contains(position) {
            Some(GridPosition { pos: position, grid_size })
        } else {
            None
        }
    }

    /// Row-major index of this position; it must fit the coordinate type.
    pub fn as_index(self) -> (i: GridIndex)
        requires
            self.size().index_of(self.point()) <= u32::MAX,
        ensures
            i.value() == self.size().index_of(self.point()),
    {
        GridIndex::from_position(self)
    }

    /// The neighbouring position in direction `neighbor`, if it lies inside the grid.
    pub fn neighbor(&self, neighbor: &Neighbor) -> (r: Option<GridPosition>)
        ensures
            locates(r, self.size(), self.size().step(self.point(), neighbor.offset())),
    {
        proof {
            use_type_invariant(self);
        }
        let offset = neighbor.as_ivec2();
        match checked_add_signed(self.pos.x, offset.x) {
            Some(x) => match checked_add_signed(self.pos.y, offset.y) {
                Some(y) => Self::new(UVec2::new(x, y), self.grid_size),
                None => None,
            },
            None => None,
        }
    }

    pub fn top_left(&self) -> (r: Option<GridPosition>)
        ensures
            locates(r, self.size(), self.size().step(self.point(), Neighbor::TopLeft.offset())),
    {
        proof {
            use_type_invariant(self);
        }
        match self.pos.x.checked_sub(1) {
            Some(x) => match self.pos.y.checked_sub(1) {
                Some(y) => Self::new(UVec2::new(x, y), self.grid_size),
                None => None,
            },
            None => None,
        }
    }

    pub fn top(&self) -> (r: Option<GridPosition>)
        ensures
            locates(r, self.size(), self.size().step(self.point(), Neighbor::Top.offset())),
    {
        proof {
            use_type_invariant(self);
        }
        match self.pos.y.checked_sub(1) {
            Some(y) => Self::new(UVec2::new(self.pos.x, y), self.grid_size),
            None => None,
        }
    }

    pub fn top_right(&self) -> (r: Option<GridPosition>)
        ensures
            locates(r, self.size(), self.size().step(self.point(), Neighbor::TopRight.offset())),
    {
        proof {
            use_type_invariant(self);
        }
        match self.pos.y.checked_sub(1) {
            Some(y) => Self::new(UVec2::new(self.pos.x + 1, y), self.grid_size),
            None => None,
        }
    }

    pub fn left(&self) -> (r: Option<GridPosition>)
        ensures
            locates(r, self.size(), self.size().step(self.point(), Neighbor::Left.offset())),
    {
        proof {
            use_type_invariant(self);
        }
        match self.pos.x.checked_sub(1) {
            Some(x) => Self::new(UVec2::new(x, self.pos.y), self.grid_size),
            None => None,
        }
    }

    pub fn right(&self) -> (r: Option<GridPosition>)
        ensures
            locates(r, self.size(), self.size().step(self.point(), Neighbor::Right.offset())),
    {
        proof {
            use_type_invariant(self);
        }
        Self::new(UVec2::new(self.pos.x + 1, self.pos.y), self.grid_size)
    }

    pub fn bottom_left(&self) -> (r: Option<GridPosition>)
        ensures
            locates(r, self.size(), self.size().step(self.point(), Neighbor::BottomLeft.offset())),
    {
        proof {
            use_type_invariant(self);
        }
        match self.pos.x.checked_sub(1) {
            Some(x) => Self::new(UVec2::new(x, self.pos.y + 1), self.grid_size),
            None => None,
        }
    }

    pub fn bottom(&self) -> (r: Option<GridPosition>)
        ensures
            locates(r, self.size(), self.size().step(self.point(), Neighbor::Bottom.offset())),
    {
        proof {
            use_type_invariant(self);
        }
        Self::new(UVec2::new(self.pos.x, self.pos.y + 1), self.grid_size)
    }

    pub fn bottom_right(&self) -> (r: Option<GridPosition>)
        ensures
            locates(
                r,
                self.size(),
                self.size().step(self.point(), Neighbor::BottomRight.offset()),
            ),
    {
        proof {
            use_type_invariant(self);
        }
        Self::new(UVec2::new(self.pos.x + 1, self.pos.y + 1), self.grid_size)
    }

    /// The eight surrounding positions, in `neighbor_order`.
    pub fn around_exclusive(&self) -> (r: [Option<GridPosition>; 8])
        ensures
            forall|i: int|
                0 <= i < 8 ==> locates(
                    #[trigger] r@[i],
                    self.size(),
                    self.size().step(self.point(), neighbor_order()[i].offset()),
                ),
    {
        let r = [
            self.top_left(),
            self.top(),
            self.top_right(),
            self.left(),
            self.right(),
            self.bottom_left(),
            self.bottom(),
            self.bottom_right(),
        ];
        assert(forall|i: int|
            0 <= i < 8 ==> locates(
                #[trigger] r@[i],
                self.size(),
                self.size().step(self.point(), neighbor_order()[i].offset()),
            )) by {
            assert(neighbor_order()[0] == Neighbor::TopLeft);
        }
        r
    }

    /// The surrounding positions with this position itself in the middle.
    pub fn around_inclusive(&self) -> (r: [Option<GridPosition>; 9])
        ensures
            forall|i: int|
                0 <= i < 4 ==> locates(
                    #[trigger] r@[i],
                    self.size(),
                    self.size().step(self.point(), neighbor_order()[i].offset()),
                ),
            r@[4] == Some(*self),
            forall|i: int|
                5 <= i < 9 ==> locates(
                    #[trigger] r@[i],
                    self.size(),
                    self.size().step(self.point(), neighbor_order()[i - 1].offset()),
                ),
    {
        [
            self.top_left(),
            self.top(),
            self.top_right(),
            self.left(),
            Some(*self),
            self.right(),
            self.bottom_left(),
            self.bottom(),
            self.bottom_right(),
        ]
    }
}

/// Row-major index of a tile inside a grid's storage.
#[derive(Clone, Copy, Hash, PartialEq, Eq, Structural)]
pub struct GridIndex(usize);

impl GridIndex {
    /// The index as an integer.
    pub closed spec fn value(self) -> int {
        self.0 as int
    }

    pub fn from_position(position: GridPosition) -> (i: GridIndex)
        requires
            position.size().index_of(position.point()) <= u32::MAX,
        ensures
            i.value() == position.size().index_of(position.point()),
    {
        proof {
            use_type_invariant(&position);
        }
        let p = position.as_uvec2();
        let w = position.grid_size().width();
        assert(p.y * w <= p.y * w + p.x);
        GridIndex((p.y * w + p.x) as usize)
    }

}

impl core::ops::Deref for GridIndex {
    type Target = usize;

    fn deref(&self) -> (n: &usize)
        ensures
            *n == self.value(),
    {
        &self.0
    }
}

impl core::ops::Deref for GridPosition {
    type Target = UVec2;

    fn deref(&self) -> (p: &UVec2)
        ensures
            *p == self.point(),
    {
        &self.pos
    }
}

/// Points inside the grid have indices in `0..area`.
pub proof fn lemma_index_in_range(size: GridSize, p: UVec2)
    requires
        size.contains_spec(p),
    ensures
        0 <= size.index_of(p) < size.area(),
{
    let w = size.width as int;
    let h = size.height as int;
    let x = p.x as int;
    let y = p.y as int;
    assert(0 <= y * w) by (nonlinear_arith)
        requires
            0 <= y,
            0 <= w,
    ;
    assert(y * w + w <= h * w) by (nonlinear_arith)
        requires
            y + 1 <= h,
            0 <= w,
    ;
}

/// Distinct points inside the grid have distinct indices.
pub proof fn lemma_index_injective(size: GridSize, p: UVec2, q: UVec2)
    requires
        size.contains_spec(p),
        size.contains_spec(q),
        size.index_of(p) == size.index_of(q),
    ensures
        p == q,
{
    let w = size.width as int;
    let (px, py, qx, qy) = (p.x as int, p.y as int, q.x as int, q.y as int);
    if py < qy {
        assert(py * w + w <= qy * w) by (nonlinear_arith)
            requires
                py + 1 <= qy,
                0 <= w,
        ;
    } else if qy < py {
        assert(qy * w + w <= py * w) by (nonlinear_arith)
            requires
                qy + 1 <= py,
                0 <= w,
        ;
    }
}

/// The `k`-th point of a grid of `size` in row-major order.
pub open spec fn row_major_point(size: GridSize, k: int) -> UVec2 {
    UVec2 { x: (k % (size.width as int)) as u32, y: (k / (size.width as int)) as u32 }
}

/// Walking a grid row by row meets every point of the grid exactly once: the `k`-th point of
/// the walk lies inside the grid and has index `k`, and every point of the grid is the point
/// of the walk at its own index.
pub proof fn lemma_row_major_walk(size: GridSize)
    requires
        size.width > 0,
        size.height > 0,
    ensures
        forall|k: int|
            0 <= k < size.area() ==> size.contains_spec(#[trigger] row_major_point(size, k))
                && size.index_of(row_major_point(size, k)) == k,
        forall|p: UVec2|
            size.contains_spec(p) ==> #[trigger] row_major_point(size, size.index_of(p)) == p,
        forall|i: int, j: int|
            0 <= i < j < size.area() ==> #[trigger] row_major_point(size, i) != #[trigger] row_major_point(
                size,
                j,
            ),
{
    let w = size.width as int;
    let h = size.height as int;
    assert forall|k: int| 0 <= k < size.area() implies size.contains_spec(
        #[trigger] row_major_point(size, k),
    ) && size.index_of(row_major_point(size, k)) == k by {
        vstd::arithmetic::div_mod::lemma_fundamental_div_mod(k, w);
        vstd::arithmetic::div_mod::lemma_mod_pos_bound(k, w);
        let x = k % w;
        let y = k / w;
        assert(0 <= y) by (nonlinear_arith)
            requires
                0 <= k,
                0 < w,
                y == k / w,
        ;
        assert(y < h) by (nonlinear_arith)
            requires
                k == w * y + x,
                0 <= x,
                k < w * h,
                0 < w,
        ;
        assert(y * w == w * y) by (nonlinear_arith);
    }
    assert forall|p: UVec2| size.contains_spec(p) implies #[trigger] row_major_point(size, size.index_of(p)) == p by {
        vstd::arithmetic::div_mod::lemma_fundamental_div_mod_converse(
            size.index_of(p),
            w,
            p.y as int,
            p.x as int,
        );
    }
}

/// Walks the positions of a grid row by row, from the top-left corner.
pub struct GridPosIterator {
    grid_size: GridSize,
    current_pos: Option<UVec2>,
}

impl GridPosIterator {
    /// The grid being walked.
    pub closed spec fn size(self) -> GridSize {
        self.grid_size
    }

    /// Row-major index of the next position to be returned; the area once exhausted.
    pub closed spec fn index(self) -> int {
        match self.current_pos {
            Some(p) => self.grid_size.index_of(p),
            None => self.grid_size.area(),
        }
    }

    /// The walk can go on: the grid is not empty and the next position lies inside it.
    pub closed spec fn wf(self) -> bool {
        &&& self.grid_size.width > 0
        &&& self.grid_size.height > 0
        &&& self.current_pos matches Some(p) ==> self.grid_size.contains_spec(p)
    }

    pub proof fn lemma_index_bounded(self)
        requires
            self.wf(),
        ensures
            0 <= self.index() <= self.size().area(),
    {
        if let Some(p) = self.current_pos {
            lemma_index_in_range(self.grid_size, p);
        } else {
            assert(0 <= self.grid_size.width * self.grid_size.height) by (nonlinear_arith);
        }
    }

    fn new(grid_size: &GridSize) -> (it: GridPosIterator)
        ensures
            it.size() == *grid_size,
            it.index() == 0,
            grid_size.width > 0 && grid_size.height > 0 ==> it.wf(),
    {
        GridPosIterator { grid_size: *grid_size, current_pos: Some(UVec2::splat(0)) }
    }

    /// The next position in row-major order, or `None` once every position was returned.
    pub fn next(&mut self) -> (r: Option<GridPosition>)
        requires
            old(self).wf(),
        ensures
            final(self).wf(),
            next_step(*old(self), r, *final(self)),
    {
        proof {
            old(self).lemma_index_bounded();
        }
        match self.current_pos {
            None => None,
            Some(current_pos) => {
                proof {
                    lemma_index_in_range(self.grid_size, current_pos);
                    lemma_row_major_walk(self.grid_size);
                }
                let result = Some(GridPosition { pos: current_pos, grid_size: self.grid_size });
                let ghost w = self.grid_size.width as int;
                let ghost h = self.grid_size.height as int;
                let ghost y = current_pos.y as int;
                if current_pos.x < self.grid_size.width - 1 {
                    self.current_pos = Some(UVec2 { x: current_pos.x + 1, y: current_pos.y });
                } else if current_pos.y < self.grid_size.height - 1 {
                    self.current_pos = Some(UVec2 { x: 0, y: current_pos.y + 1 });
                    assert((y + 1) * w == y * w + w) by (nonlinear_arith);
                } else {
                    self.current_pos = None;
                    assert(h * w == (h - 1) * w + w) by (nonlinear_arith);
                }
                result
            },
        }
    }
}

/// One call of `next` on a walk in state `before` returned `r` and left the walk in state
/// `after`: the point at the current row-major index and one step on, or `None` and no step
/// once the walk is exhausted.
pub open spec fn next_step(before: GridPosIterator, r: Option<GridPosition>, after: GridPosIterator) -> bool {
    &&& after.size() == before.size()
    &&& before.index() < before.size().area() ==> {
        &&& r matches Some(q)
        &&& q.size() == before.size()
        &&& q.size().contains_spec(q.point())
        &&& before.size().index_of(q.point()) == before.index()
        &&& q.point() == row_major_point(before.size(), before.index())
        &&& after.index() == before.index() + 1
    }
    &&& before.index() >= before.size().area() ==> {
        &&& r is None
        &&& after.index() == before.index()
    }
}

/// `states` and `results` trace a walk of a grid of `size` from its start: `results[k]` is
/// what the `k`-th call of `next` returned, taking the walk from `states[k]` to
/// `states[k + 1]`.
pub open spec fn walk_trace(size: GridSize, states: Seq<GridPosIterator>, results: Seq<Option<GridPosition>>) -> bool {
    &&& states.len() == results.len() + 1
    &&& states[0].size() == size
    &&& states[0].index() == 0
    &&& forall|k: int| 0 <= k < results.len() ==> #[trigger] next_step(states[k], results[k], states[k + 1])
}

/// Walking a non-empty grid from its start with `next` returns every point of the grid
/// exactly once, in row-major order (the `k`-th result is the point `(k % width, k / width)`),
/// so exactly `width * height` positions, and returns `None` on every call after them.
pub proof fn lemma_whole_walk(size: GridSize, states: Seq<GridPosIterator>, results: Seq<Option<GridPosition>>)
    requires
        size.width > 0,
        size.height > 0,
        walk_trace(size, states, results),
    ensures
        forall|k: int|
            0 <= k < results.len() && k < size.area() ==> (#[trigger] results[k] matches Some(q) && q.size()
                == size && q.point() == row_major_point(size, k) && size.contains_spec(q.point())),
        forall|k: int| 0 <= k < results.len() && k >= size.area() ==> #[trigger] results[k] is None,
        forall|i: int, j: int|
            0 <= i < j < results.len() && j < size.area() ==> #[trigger] results[i] != #[trigger] results[j],
        forall|p: UVec2|
            size.contains_spec(p) && size.index_of(p) < results.len() ==> (#[trigger] results[size.index_of(p)]
                matches Some(q) && q.point() == p),
    decreases results.len(),
{
    lemma_row_major_walk(size);
    assert forall|k: int| 0 <= k < states.len() implies (#[trigger] states[k]).size() == size && states[k].index() == (
    if k <= size.area() {
        k
    } else {
        size.area()
    }) by {
        lemma_walk_index(size, states, results, k);
    }
    assert forall|k: int| 0 <= k < results.len() implies next_step(states[k], results[k], states[k + 1]) by {}
    assert forall|p: UVec2| size.contains_spec(p) && size.index_of(p) < results.len() implies (#[trigger] results[
        size.index_of(p)
    ] matches Some(q) && q.point() == p) by {
        lemma_index_in_range(size, p);
        let k = size.index_of(p);
        assert(next_step(states[k], results[k], states[k + 1]));
    }
    assert forall|i: int, j: int| 0 <= i < j < results.len() && j < size.area() implies #[trigger] results[i]
        != #[trigger] results[j] by {
        assert(next_step(states[i], results[i], states[i + 1]));
        assert(next_step(states[j], results[j], states[j + 1]));
    }
}

/// After `k` calls the walk stands at index `k`, or at the area once exhausted.
proof fn lemma_walk_index(size: GridSize, states: Seq<GridPosIterator>, results: Seq<Option<GridPosition>>, k: int)
    requires
        size.width > 0,
        size.height > 0,
        walk_trace(size, states, results),
        0 <= k < states.len(),
    ensures
        states[k].size() == size,
        states[k].index() == (if k <= size.area() {
            k
        } else {
            size.area()
        }),
    decreases k,
{
    if k > 0 {
        lemma_walk_index(size, states, results, k - 1);
        let j = k - 1;
        assert(next_step(states[j], results[j], states[j + 1]));
        assert(states[j + 1] == states[k]);
    }
}

impl GridSize {
    /// Walks every position of the grid in row-major order.
    pub fn iter(&self) -> (it: GridPosIterator)
        ensures
            it.size() == *self,
            it.index() == 0,
            self.width > 0 && self.height > 0 ==> it.wf(),
    {
        GridPosIterator::new(self)
    }
}

/// The tiles of a grid, stored row by row.
pub struct Grid<T>(Vec<T>);

impl<T> View for Grid<T> {
    type V = Seq<T>;

    closed spec fn view(&self) -> Seq<T> {
        self.0@
    }
}

/// `g` holds, at the index of every position of `size`, a value that `constructor` may
/// return for that position.
pub open spec fn built_by<T, F: Fn(GridPosition) -> T>(g: Seq<T>, size: GridSize, constructor: F) -> bool {
    &&& g.len() == size.area()
    &&& forall|p: UVec2|
        size.contains_spec(p) ==> constructor.ensures(
            (GridPosition::at(size, p),),
            #[trigger] g[size.index_of(p)],
        )
}

impl<T: Copy> Grid<T> {
    /// A grid of the given size filled with copies of `tile`.
    pub fn with_tile(size: &GridSize, tile: T) -> (g: Grid<T>)
        requires
            size.area() <= u32::MAX,
        ensures
            g@.len() == size.area(),
            forall|i: int| 0 <= i < g@.len() ==> g@[i] == tile,
    {
        let n = size.width() * size.height();
        let mut tiles: Vec<T> = Vec::with_capacity(n as usize);
        let mut i: u32 = 0;
        while i < n
            invariant
                i <= n,
                tiles@.len() == i,
                forall|j: int| 0 <= j < i ==> tiles@[j] == tile,
            decreases n - i,
        {
            tiles.push(tile);
            i = i + 1;
        }
        Grid(tiles)
    }
}

impl<T> Grid<T> {
    /// A grid whose tile at each position is built from that position.
    pub fn from_fn<F: Fn(GridPosition) -> T>(size: &GridSize, constructor: F) -> (g: Grid<T>)
        requires
            size.width > 0,
            size.height > 0,
            size.area() <= u32::MAX,
            forall|p: GridPosition| #[trigger] constructor.requires((p,)),
        ensures
            built_by(g@, *size, constructor),
    {
        let n = size.width() * size.height();
        let mut tiles: Vec<T> = Vec::with_capacity(n as usize);
        let mut positions = size.iter();
        loop
            invariant
                positions.wf(),
                positions.size() == *size,
                tiles@.len() == positions.index(),
                forall|p: GridPosition| #[trigger] constructor.requires((p,)),
                forall|p: UVec2|
                    size.contains_spec(p) && size.index_of(p) < tiles@.len() ==> constructor.ensures(
                        (GridPosition::at(*size, p),),
                        #[trigger] tiles@[size.index_of(p)],
                    ),
            ensures
                tiles@.len() == size.area(),
                forall|p: UVec2|
                    size.contains_spec(p) ==> constructor.ensures(
                        (GridPosition::at(*size, p),),
                        #[trigger] tiles@[size.index_of(p)],
                    ),
            decreases size.area() - tiles@.len(),
        {
            proof {
                positions.lemma_index_bounded();
            }
            match positions.next() {
                Some(pos) => {
                    let tile = constructor(pos);
                    let ghost before = tiles@;
                    tiles.push(tile);
                    proof {
                        let q = pos.point();
                        assert(pos == GridPosition::at(*size, q));
                        assert forall|p: UVec2|
                            size.contains_spec(p) && size.index_of(p) < tiles@.len() implies constructor.ensures(
                                (GridPosition::at(*size, p),),
                                #[trigger] tiles@[size.index_of(p)],
                            ) by {
                            if size.index_of(p) == before.len() {
                                lemma_index_injective(*size, p, q);
                            } else {
                                assert(tiles@[size.index_of(p)] == before[size.index_of(p)]);
                            }
                        }
                    }
                },
                None => {
                    proof {
                        assert forall|p: UVec2| size.contains_spec(p) implies size.index_of(p) < tiles@.len() by {
                            lemma_index_in_range(*size, p);
                        }
                    }
                    break ;
                },
            }
        }
        Grid(tiles)
    }
}

/// `constructor` may return a tile, rather than an error, for every position of `size` that
/// comes before `p` in row-major order.
pub open spec fn succeeds_before<T, E, F: Fn(GridPosition) -> Result<T, E>>(
    size: GridSize,
    constructor: F,
    p: UVec2,
) -> bool {
    forall|q: UVec2|
        #![trigger GridPosition::at(size, q)]
        size.contains_spec(q) && size.index_of(q) < size.index_of(p) ==> exists|t: T|
            #[trigger] constructor.ensures((GridPosition::at(size, q),), Ok::<T, E>(t))
}

impl<T> Grid<T> {
    /// Builds a grid from a fallible constructor, stopping at the first error.
    pub fn from_fn_result<E, F: Fn(GridPosition) -> Result<T, E>>(
        size: &GridSize,
        constructor: F,
    ) -> (r: Result<Grid<T>, E>)
        requires
            size.width > 0,
            size.height > 0,
            size.area() <= u32::MAX,
            forall|p: GridPosition| #[trigger] constructor.requires((p,)),
        ensures
            r matches Ok(g) ==> {
                &&& g@.len() == size.area()
                &&& forall|p: UVec2|
                    size.contains_spec(p) ==> constructor.ensures(
                        (GridPosition::at(*size, p),),
                        Ok(#[trigger] g@[size.index_of(p)]),
                    )
            },
            r matches Err(e) ==> exists|p: UVec2|
                #![trigger GridPosition::at(*size, p)]
                size.contains_spec(p) && constructor.ensures(
                    (GridPosition::at(*size, p),),
                    Err::<T, E>(e),
                ) && succeeds_before(*size, constructor, p),
    {
        let n = size.width() * size.height();
        let mut tiles: Vec<T> = Vec::with_capacity(n as usize);
        let mut positions = size.iter();
        loop
            invariant
                positions.wf(),
                positions.size() == *size,
                tiles@.len() == positions.index(),
                forall|p: GridPosition| #[trigger] constructor.requires((p,)),
                forall|p: UVec2|
                    size.contains_spec(p) && size.index_of(p) < tiles@.len() ==> constructor.ensures(
                        (GridPosition::at(*size, p),),
                        Ok(#[trigger] tiles@[size.index_of(p)]),
                    ),
            ensures
                tiles@.len() == size.area(),
                forall|p: UVec2|
                    size.contains_spec(p) ==> constructor.ensures(
                        (GridPosition::at(*size, p),),
                        Ok(#[trigger] tiles@[size.index_of(p)]),
                    ),
            decreases size.area() - tiles@.len(),
        {
            proof {
                positions.lemma_index_bounded();
            }
            match positions.next() {
                Some(pos) => {
                    let result = constructor(pos);
                    let ghost q = pos.point();
                    proof {
                        assert(pos == GridPosition::at(*size, q));
                    }
                    match result {
                        Ok(tile) => {
                            let ghost before = tiles@;
                            tiles.push(tile);
                            proof {
                                assert forall|p: UVec2|
                                    size.contains_spec(p) && size.index_of(p) < tiles@.len() implies constructor.ensures(
                                        (GridPosition::at(*size, p),),
                                        Ok(#[trigger] tiles@[size.index_of(p)]),
                                    ) by {
                                    if size.index_of(p) == before.len() {
                                        lemma_index_injective(*size, p, q);
                                    } else {
                                        assert(tiles@[size.index_of(p)] == before[size.index_of(p)]);
                                    }
                                }
                            }
                        },
                        Err(e) => {
                            assert(size.contains_spec(q) && constructor.ensures(
                                (GridPosition::at(*size, q),),
                                Err::<T, E>(e),
                            ));
                            assert forall|q2: UVec2|
                                size.contains_spec(q2) && size.index_of(q2) < size.index_of(q) implies exists|t: T|
                                    #[trigger] constructor.ensures((GridPosition::at(*size, q2),), Ok::<T, E>(t)) by {
                                assert(constructor.ensures(
                                    (GridPosition::at(*size, q2),),
                                    Ok::<T, E>(tiles@[size.index_of(q2)]),
                                ));
                            }
                            assert(succeeds_before(*size, constructor, q));
                            return Err(e);
                        },
                    }
                },
                None => {
                    proof {
                        assert forall|p: UVec2| size.contains_spec(p) implies size.index_of(p) < tiles@.len() by {
                            lemma_index_in_range(*size, p);
                        }
                    }
                    break ;
                },
            }
        }
        Ok(Grid(tiles))
    }

    /// The tile stored at `index`.
    pub fn index(&self, index: GridIndex) -> (t: &T)
        requires
            index.value() < self@.len(),
        ensures
            *t == self@[index.value()],
    {
        &self.0[*index]
    }

    /// Mutable access to the tile stored at `index`.
    pub fn index_mut(&mut self, index: GridIndex) -> (t: &mut T)
        requires
            index.value() < old(self)@.len(),
        ensures
            *t == old(self)@[index.value()],
            final(self)@ == old(self)@.update(index.value(), *final(t)),
    {
        &mut self.0[*index]
    }

    /// The tile at `position`.
    pub fn index_position(&self, position: GridPosition) -> (t: &T)
        requires
            position.size().index_of(position.point()) < self@.len(),
            position.size().index_of(position.point()) <= u32::MAX,
        ensures
            *t == self@[position.size().index_of(position.point())],
    {
        self.index(GridIndex::from_position(position))
    }

    /// Mutable access to the tile at `position`.
    pub fn index_position_mut(&mut self, position: GridPosition) -> (t: &mut T)
        requires
            position.size().index_of(position.point()) < old(self)@.len(),
            position.size().index_of(position.point()) <= u32::MAX,
        ensures
            *t == old(self)@[position.size().index_of(position.point())],
            final(self)@ == old(self)@.update(
                position.size().index_of(position.point()),
                *final(t),
            ),
    {
        self.index_mut(GridIndex::from_position(position))
    }
}

impl<T: Default> Grid<T> {
    /// A grid of the given size filled with default tiles: each is what `T::default` returns.
    pub fn with_size(size: &GridSize) -> (g: Grid<T>)
        requires
            size.width > 0,
            size.height > 0,
            size.area() <= u32::MAX,
        ensures
            g@.len() == size.area(),
            forall|i: int| 0 <= i < g@.len() ==> call_ensures(T::default, (), #[trigger] g@[i]),
    {
        let g = Self::from_fn(size, |_p: GridPosition| -> (t: T)
            ensures
                call_ensures(T::default, (), t),
            { T::default() });
        proof {
            assert forall|i: int| 0 <= i < g@.len() implies call_ensures(T::default, (), #[trigger] g@[i]) by {
                lemma_row_major_walk(*size);
                let p = row_major_point(*size, i);
                GridPosition::lemma_at(*size, p);
            }
        }
        g
    }
}

/// `r` refers to `expected`, or is `None` exactly when `expected` is.
pub open spec fn refers<T>(r: Option<&T>, expected: Option<T>) -> bool {
    match (r, expected) {
        (Some(a), Some(b)) => *a == b,
        (None, None) => true,
        _ => false,
    }
}

/// Read access to a grid around one position.
pub struct GridCursor<'a, T> {
    position: GridPosition,
    grid: &'a Grid<T>,
}

impl<'a, T> Grid<T> {
    /// A cursor over this grid placed at `position`.
    pub fn cursor_at(&'a self, position: GridPosition) -> (c: GridCursor<'a, T>)
        ensures
            c.position() == position,
            c.tiles() == self@,
    {
        GridCursor { position, grid: self }
    }
}

impl<'a, T> GridCursor<'a, T> {
    /// Where the cursor stands.
    pub closed spec fn position(self) -> GridPosition {
        self.position
    }

    /// The tiles of the grid, row by row.
    pub closed spec fn tiles(self) -> Seq<T> {
        self.grid@
    }

    /// The tile at point `p` can be read: there is no point, or the grid stores a tile at its
    /// index and the index fits the coordinate type.
    pub open spec fn readable(self, p: Option<UVec2>) -> bool {
        match p {
            Some(q) => {
                let i = self.position().size().index_of(q);
                i < self.tiles().len() && i <= u32::MAX
            },
            None => true,
        }
    }

    /// The tile at point `p`, if there is a point.
    pub open spec fn tile_at(self, p: Option<UVec2>) -> Option<T> {
        match p {
            Some(q) => Some(self.tiles()[self.position().size().index_of(q)]),
            None => None,
        }
    }

    /// The point reached from the cursor by `offset`, if it lies inside the grid.
    pub open spec fn point_towards(self, offset: (int, int)) -> Option<UVec2> {
        self.position().size().step(self.position().point(), offset)
    }

    /// The tile reached from the cursor by `offset`, if that point lies inside the grid.
    pub open spec fn tile_towards(self, offset: (int, int)) -> Option<T> {
        self.tile_at(self.point_towards(offset))
    }

    fn tile_of(&self, position: Option<GridPosition>) -> (r: Option<&'a T>)
        requires
            position matches Some(q) ==> {
                &&& q.size() == self.position().size()
                &&& q.size().contains_spec(q.point())
                &&& self.readable(Some(q.point()))
            },
        ensures
            refers(
                r,
                match position {
                    Some(q) => Some(self.tiles()[q.size().index_of(q.point())]),
                    None => None,
                },
            ),
    {
        match position {
            Some(q) => {
                proof {
                    lemma_index_in_range(q.size(), q.point());
                }
                Some(self.grid.index_position(q))
            },
            None => None,
        }
    }

    pub fn neighbor(&self, neighbor: &Neighbor) -> (r: Option<&'a T>)
        requires
            self.readable(self.point_towards(neighbor.offset())),
        ensures
            refers(r, self.tile_towards(neighbor.offset())),
    {
        self.tile_of(self.position.neighbor(neighbor))
    }

    pub fn top_left(&self) -> (r: Option<&'a T>)
        requires
            self.readable(self.point_towards(Neighbor::TopLeft.offset())),
        ensures
            refers(r, self.tile_towards(Neighbor::TopLeft.offset())),
    {
        self.tile_of(self.position.top_left())
    }

    pub fn top(&self) -> (r: Option<&'a T>)
        requires
            self.readable(self.point_towards(Neighbor::Top.offset())),
        ensures
            refers(r, self.tile_towards(Neighbor::Top.offset())),
    {
        self.tile_of(self.position.top())
    }

    pub fn top_right(&self) -> (r: Option<&'a T>)
        requires
            self.readable(self.point_towards(Neighbor::TopRight.offset())),
        ensures
            refers(r, self.tile_towards(Neighbor::TopRight.offset())),
    {
        self.tile_of(self.position.top_right())
    }

    pub fn left(&self) -> (r: Option<&'a T>)
        requires
            self.readable(self.point_towards(Neighbor::Left.offset())),
        ensures
            refers(r, self.tile_towards(Neighbor::Left.offset())),
    {
        self.tile_of(self.position.left())
    }

    /// The tile under the cursor.
    pub fn get(&self) -> (t: &'a T)
        requires
            self.readable(Some(self.position().point())),
        ensures
            *t == self.tiles()[self.position().size().index_of(self.position().point())],
    {
        self.grid.index_position(self.position)
    }

    pub fn right(&self) -> (r: Option<&'a T>)
        requires
            self.readable(self.point_towards(Neighbor::Right.offset())),
        ensures
            refers(r, self.tile_towards(Neighbor::Right.offset())),
    {
        self.tile_of(self.position.right())
    }

    pub fn bottom_left(&self) -> (r: Option<&'a T>)
        requires
            self.readable(self.point_towards(Neighbor::BottomLeft.offset())),
        ensures
            refers(r, self.tile_towards(Neighbor::BottomLeft.offset())),
    {
        self.tile_of(self.position.bottom_left())
    }

    pub fn bottom(&self) -> (r: Option<&'a T>)
        requires
            self.readable(self.point_towards(Neighbor::Bottom.offset())),
        ensures
            refers(r, self.tile_towards(Neighbor::Bottom.offset())),
    {
        self.tile_of(self.position.bottom())
    }

    pub fn bottom_right(&self) -> (r: Option<&'a T>)
        requires
            self.readable(self.point_towards(Neighbor::BottomRight.offset())),
        ensures
            refers(r, self.tile_towards(Neighbor::BottomRight.offset())),
    {
        self.tile_of(self.position.bottom_right())
    }

    /// The eight surrounding tiles, in `neighbor_order`.
    pub fn iter_exclusive(&self) -> (r: [Option<&'a T>; 8])
        requires
            forall|i: int| 0 <= i < 8 ==> self.readable(self.point_towards(#[trigger] neighbor_order()[i].offset())),
        ensures
            forall|i: int|
                0 <= i < 8 ==> refers(#[trigger] r@[i], self.tile_towards(neighbor_order()[i].offset())),
    {
        [
            self.top_left(),
            self.top(),
            self.top_right(),
            self.left(),
            self.right(),
            self.bottom_left(),
            self.bottom(),
            self.bottom_right(),
        ]
    }

    /// The surrounding tiles with the tile under the cursor in the middle.
    pub fn iter_inclusive(&self) -> (r: [Option<&'a T>; 9])
        requires
            forall|i: int| 0 <= i < 8 ==> self.readable(self.point_towards(#[trigger] neighbor_order()[i].offset())),
            self.readable(Some(self.position().point())),
        ensures
            forall|i: int|
                0 <= i < 4 ==> refers(#[trigger] r@[i], self.tile_towards(neighbor_order()[i].offset())),
            refers(r@[4], self.tile_towards((0, 0))),
            forall|i: int|
                5 <= i < 9 ==> refers(
                    #[trigger] r@[i],
                    self.tile_towards(neighbor_order()[i - 1].offset()),
                ),
    {
        proof {
            use_type_invariant(&self.position);
        }
        [
            self.top_left(),
            self.top(),
            self.top_right(),
            self.left(),
            Some(self.get()),
            self.right(),
            self.bottom_left(),
            self.bottom(),
            self.bottom_right(),
        ]
    }
}

/// Each neighbour lies one step away in its own direction, rows counted downwards: the top
/// row is at `y - 1`, the left column at `x - 1`, and so on; no neighbour is the tile itself.
pub proof fn lemma_neighbor_offsets(n: Neighbor)
    ensures
        Neighbor::TopLeft.offset() == (-1int, -1int),
        Neighbor::Top.offset() == (0int, -1int),
        Neighbor::TopRight.offset() == (1int, -1int),
        Neighbor::Left.offset() == (-1int, 0int),
        Neighbor::Right.offset() == (1int, 0int),
        Neighbor::BottomLeft.offset() == (-1int, 1int),
        Neighbor::Bottom.offset() == (0int, 1int),
        Neighbor::BottomRight.offset() == (1int, 1int),
        n.offset() != (0int, 0int),
        -1 <= n.offset().0 <= 1 && -1 <= n.offset().1 <= 1,
{
}

/// Stepping to a neighbour and then in the opposite direction leads back to the start.
pub proof fn lemma_neighbor_symmetric(size: GridSize, p: UVec2, neighbor: Neighbor)
    requires
        size.contains_spec(p),
    ensures
        size.step(p, neighbor.offset()) matches Some(q) ==> size.step(q, neighbor.opposite().offset())
            == Some(p),
{
}

} // verus!
