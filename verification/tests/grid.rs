use engine::grid::{Grid, GridIndex, GridPosition, GridSize, Neighbor};
use engine::math::{IVec2, UVec2};

fn pos(x: u32, y: u32, size: GridSize) -> GridPosition {
    GridPosition::new(UVec2::new(x, y), size).expect("inside the grid")
}

#[test]
fn grid_size_accessors_and_tile_count() {
    let size = GridSize::new(4, 3);
    assert_eq!(size.width(), 4);
    assert_eq!(size.height(), 3);
    assert_eq!(size.tile_count(), 12);
    assert_eq!(size.as_uvec2(), UVec2::new(4, 3));
    assert!(size.contains(UVec2::new(3, 2)));
    assert!(!size.contains(UVec2::new(4, 0)));
    assert!(!size.contains(UVec2::new(0, 3)));
}

#[test]
fn position_outside_the_grid_is_refused() {
    let size = GridSize::new(2, 2);
    assert!(GridPosition::new(UVec2::new(2, 1), size).is_none());
    assert!(GridPosition::new(UVec2::new(1, 1), size).is_some());
}

#[test]
fn index_is_row_major() {
    let size = GridSize::new(5, 4);
    let p = pos(3, 2, size);
    assert_eq!(*p.as_index(), 13);
    assert_eq!(*GridIndex::from_position(pos(0, 0, size)), 0);
    assert_eq!(*GridIndex::from_position(pos(4, 3, size)), 19);
}

#[test]
fn named_neighbors_match_offsets() {
    let size = GridSize::new(3, 3);
    let center = pos(1, 1, size);
    assert_eq!(*center.top_left().unwrap(), UVec2::new(0, 0));
    assert_eq!(*center.top().unwrap(), UVec2::new(1, 0));
    assert_eq!(*center.top_right().unwrap(), UVec2::new(2, 0));
    assert_eq!(*center.left().unwrap(), UVec2::new(0, 1));
    assert_eq!(*center.right().unwrap(), UVec2::new(2, 1));
    assert_eq!(*center.bottom_left().unwrap(), UVec2::new(0, 2));
    assert_eq!(*center.bottom().unwrap(), UVec2::new(1, 2));
    assert_eq!(*center.bottom_right().unwrap(), UVec2::new(2, 2));
    assert_eq!(*center.neighbor(&Neighbor::TopRight).unwrap(), UVec2::new(2, 0));
}

#[test]
fn neighbors_stop_at_the_border() {
    let size = GridSize::new(3, 2);
    let corner = pos(0, 0, size);
    assert!(corner.top_left().is_none());
    assert!(corner.top().is_none());
    assert!(corner.left().is_none());
    assert!(corner.bottom_left().is_none());
    assert!(corner.top_right().is_none());
    assert_eq!(*corner.bottom_right().unwrap(), UVec2::new(1, 1));
    let far = pos(2, 1, size);
    assert!(far.right().is_none());
    assert!(far.bottom().is_none());
    assert!(far.neighbor(&Neighbor::BottomRight).is_none());
    assert_eq!(*far.neighbor(&Neighbor::TopLeft).unwrap(), UVec2::new(1, 0));
}

#[test]
fn neighbor_and_back_returns_home() {
    let size = GridSize::new(4, 4);
    let start = pos(1, 2, size);
    let there = start.neighbor(&Neighbor::BottomLeft).unwrap();
    let back = there.neighbor(&Neighbor::TopRight).unwrap();
    assert_eq!(*back, *start);
}

#[test]
fn around_lists_neighbors_in_order() {
    let size = GridSize::new(2, 2);
    let p = pos(0, 0, size);
    let around = p.around_exclusive();
    let present: Vec<Option<UVec2>> = around.iter().map(|o| o.map(|q| *q)).collect();
    assert_eq!(
        present,
        vec![None, None, None, None, Some(UVec2::new(1, 0)), None, Some(UVec2::new(0, 1)), Some(UVec2::new(1, 1))]
    );
    let inclusive = p.around_inclusive();
    assert_eq!(*inclusive[4].unwrap(), UVec2::new(0, 0));
    assert_eq!(*inclusive[5].unwrap(), UVec2::new(1, 0));
}

#[test]
fn neighbor_offsets() {
    assert_eq!(Neighbor::TopLeft.as_ivec2(), IVec2::new(-1, -1));
    assert_eq!(Neighbor::Top.as_ivec2(), IVec2::new(0, -1));
    assert_eq!(Neighbor::BottomRight.as_ivec2(), IVec2::new(1, 1));
    assert_eq!(Neighbor::Left.as_ivec2(), IVec2::new(-1, 0));
}

#[test]
fn iterator_walks_row_by_row() {
    let size = GridSize::new(3, 2);
    let mut it = size.iter();
    let mut seen = Vec::new();
    while let Some(p) = it.next() {
        seen.push(*p);
    }
    assert_eq!(
        seen,
        vec![
            UVec2::new(0, 0),
            UVec2::new(1, 0),
            UVec2::new(2, 0),
            UVec2::new(0, 1),
            UVec2::new(1, 1),
            UVec2::new(2, 1)
        ]
    );
    assert!(it.next().is_none());
}

#[test]
fn grid_from_fn_stores_each_tile_at_its_index() {
    let size = GridSize::new(3, 2);
    let grid = Grid::from_fn(&size, |p: GridPosition| p.x * 10 + p.y);
    assert_eq!(*grid.index_position(pos(2, 1, size)), 21);
    assert_eq!(*grid.index(pos(1, 0, size).as_index()), 10);
}

#[test]
fn grid_from_fn_result_stops_at_first_error() {
    let size = GridSize::new(2, 2);
    let ok: Result<Grid<u32>, String> = Grid::from_fn_result(&size, |p: GridPosition| Ok(p.x + p.y));
    let ok = ok.unwrap();
    assert_eq!(*ok.index_position(pos(1, 1, size)), 2);
    let err: Result<Grid<u32>, String> = Grid::from_fn_result(&size, |p: GridPosition| {
        if p.y == 1 {
            Err(format!("bad tile ({}, {})", p.x, p.y))
        } else {
            Ok(0)
        }
    });
    assert_eq!(err.err(), Some("bad tile (0, 1)".to_string()));
}

#[test]
fn grid_with_tile_and_with_size() {
    let size = GridSize::new(2, 3);
    let grid = Grid::with_tile(&size, 7u8);
    assert_eq!(*grid.index_position(pos(1, 2, size)), 7);
    let defaults: Grid<u16> = Grid::with_size(&size);
    assert_eq!(*defaults.index_position(pos(0, 1, size)), 0);
}

#[test]
fn grid_index_mut_changes_one_tile() {
    let size = GridSize::new(2, 2);
    let mut grid = Grid::with_tile(&size, 0u32);
    *grid.index_position_mut(pos(1, 0, size)) = 5;
    *grid.index_mut(pos(0, 1, size).as_index()) = 6;
    assert_eq!(*grid.index_position(pos(1, 0, size)), 5);
    assert_eq!(*grid.index_position(pos(0, 1, size)), 6);
    assert_eq!(*grid.index_position(pos(0, 0, size)), 0);
}

#[test]
fn cursor_reads_surrounding_tiles() {
    let size = GridSize::new(3, 3);
    let grid = Grid::from_fn(&size, |p: GridPosition| p.y * 3 + p.x);
    let cursor = grid.cursor_at(pos(1, 1, size));
    assert_eq!(*cursor.get(), 4);
    assert_eq!(cursor.top_left(), Some(&0));
    assert_eq!(cursor.top(), Some(&1));
    assert_eq!(cursor.top_right(), Some(&2));
    assert_eq!(cursor.left(), Some(&3));
    assert_eq!(cursor.right(), Some(&5));
    assert_eq!(cursor.bottom_left(), Some(&6));
    assert_eq!(cursor.bottom(), Some(&7));
    assert_eq!(cursor.bottom_right(), Some(&8));
    assert_eq!(cursor.neighbor(&Neighbor::Bottom), Some(&7));
    let all: Vec<u32> = cursor.iter_inclusive().iter().map(|t| *t.unwrap()).collect();
    assert_eq!(all, (0..9).collect::<Vec<u32>>());
    let edge = grid.cursor_at(pos(0, 2, size));
    let around: Vec<Option<u32>> = edge.iter_exclusive().iter().map(|t| t.copied()).collect();
    assert_eq!(around, vec![None, Some(3), Some(4), None, Some(7), None, None, None]);
}
