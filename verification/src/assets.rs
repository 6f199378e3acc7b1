//! The sprite sheets every overworld tile set is cut from.

use vstd::prelude::*;

use bevy::image::TextureAtlasLayout;

use crate::math::UVec2;

verus! {

/// Side of a square tile, in pixels.
pub const TILE_SIZE: u32 = 32;

#[verifier::external_type_specification]
#[verifier::external_body]
pub struct ExTextureAtlasLayout(TextureAtlasLayout);

/// The pixel size `(width, height)` of a texture atlas layout.
pub uninterp spec fn atlas_size(layout: TextureAtlasLayout) -> (u32, u32);

/// The sprites a texture atlas layout cuts out, in order, each as the rectangle
/// `(min_x, min_y, max_x, max_y)` in pixels.
pub uninterp spec fn atlas_cells(layout: TextureAtlasLayout) -> Seq<(u32, u32, u32, u32)>;

/// The cells of a grid of `columns` by `rows` cells of `tile` pixels, row by row: cell
/// `y * columns + x` spans from `tile * (x, y)` to `tile * (x + 1, y + 1)`.
pub open spec fn grid_cells(tile: UVec2, columns: u32, rows: u32) -> Seq<(u32, u32, u32, u32)> {
    Seq::new(
        (columns * rows) as nat,
        |i: int|
            {
                let x = i % (columns as int);
                let y = i / (columns as int);
                (
                    (tile.x * x) as u32,
                    (tile.y * y) as u32,
                    (tile.x * (x + 1)) as u32,
                    (tile.y * (y + 1)) as u32,
                )
            },
    )
}

/// Calls `TextureAtlasLayout::from_grid` without padding or offset: the layout then holds,
/// row by row, the cell of `tile_size` at `tile_size * (x, y)` for every column `x` and row
/// `y`, and measures `tile_size` times the grid. The sizes must fit `u32`, or the
/// multiplications overflow.
#[verifier::external_body]
fn atlas_from_grid(tile_size: UVec2, columns: u32, rows: u32) -> (layout: TextureAtlasLayout)
    requires
        tile_size.x * columns <= u32::MAX,
        tile_size.y * rows <= u32::MAX,
    ensures
        atlas_size(layout) == ((tile_size.x * columns) as u32, (tile_size.y * rows) as u32),
        atlas_cells(layout) == grid_cells(tile_size, columns, rows),
{
    TextureAtlasLayout::from_grid(
        bevy::math::UVec2::new(tile_size.x, tile_size.y),
        columns,
        rows,
        None,
        None,
    )
}

/// The image size is not a whole number of tiles.
#[derive(Debug, Clone, Copy, PartialEq, Eq, Structural)]
pub struct TextureAtlasLayoutError;

/// The tile grid an image of `image_size` pixels is cut into, if its sides are multiples of
/// the tile size.
pub open spec fn atlas_grid(image_size: UVec2) -> Option<(u32, u32)> {
    if image_size.x % TILE_SIZE == 0 && image_size.y % TILE_SIZE == 0 {
        Some(((image_size.x / TILE_SIZE) as u32, (image_size.y / TILE_SIZE) as u32))
    } else {
        None
    }
}

/// A square tile of `TILE_SIZE` pixels.
pub open spec fn tile_square() -> UVec2 {
    UVec2 { x: TILE_SIZE, y: TILE_SIZE }
}

/// Cuts an image of `image_size` pixels into square tiles, row by row, or fails when a side
/// is not a multiple of the tile size.
pub fn derive_texture_atlas_layout(image_size: UVec2) -> (r: Result<TextureAtlasLayout, TextureAtlasLayoutError>)
    ensures
        match atlas_grid(image_size) {
            Some((columns, rows)) => r matches Ok(layout) && atlas_size(layout) == (image_size.x, image_size.y)
                && atlas_cells(layout) == grid_cells(tile_square(), columns, rows),
            None => r == Err::<TextureAtlasLayout, TextureAtlasLayoutError>(TextureAtlasLayoutError),
        },
{
    if image_size.x % TILE_SIZE != 0 || image_size.y % TILE_SIZE != 0 {
        return Err(TextureAtlasLayoutError);
    }
    let columns = image_size.x / TILE_SIZE;
    let rows = image_size.y / TILE_SIZE;
    Ok(atlas_from_grid(UVec2::splat(TILE_SIZE), columns, rows))
}

/// The sprite sheets the overworld tiles come from.
#[derive(Clone, Copy, Hash, PartialEq, Eq, Debug, Structural)]
pub enum SpriteSheetId {
    Outside,
    Inside,
    WaterCalm,
    WaterDeep,
}

impl SpriteSheetId {
    /// Where the image of each sprite sheet is found.
    pub open spec fn path_spec(self) -> Seq<char> {
        match self {
            SpriteSheetId::Outside => "sprites/tilesets/Outside.png"@,
            SpriteSheetId::Inside => "sprites/tilesets/Inside.png"@,
            SpriteSheetId::WaterCalm => "sprites/autotiles/water_calm.png"@,
            SpriteSheetId::WaterDeep => "sprites/autotiles/water_with_shore.png"@,
        }
    }

    /// The asset path of the sprite sheet's image.
    pub fn path(&self) -> (p: &'static str)
        ensures
            p@ == self.path_spec(),
    {
        match self {
            SpriteSheetId::Outside => "sprites/tilesets/Outside.png",
            SpriteSheetId::Inside => "sprites/tilesets/Inside.png",
            SpriteSheetId::WaterCalm => "sprites/autotiles/water_calm.png",
            SpriteSheetId::WaterDeep => "sprites/autotiles/water_with_shore.png",
        }
    }

    /// Columns and rows of tiles in each sprite sheet.
    pub open spec fn grid_spec(self) -> (u32, u32) {
        match self {
            SpriteSheetId::Outside => (8, 888),
            SpriteSheetId::Inside => (8, 736),
            SpriteSheetId::WaterCalm => (3, 4),
            SpriteSheetId::WaterDeep => (24, 4),
        }
    }

    /// The layout cutting the sprite sheet into its tiles.
    pub fn texture_atlas_layout(&self) -> (layout: TextureAtlasLayout)
        ensures
            atlas_cells(layout) == grid_cells(tile_square(), self.grid_spec().0, self.grid_spec().1),
            atlas_cells(layout) == match *self {
                SpriteSheetId::Outside => grid_cells(tile_square(), 8, 888),
                SpriteSheetId::Inside => grid_cells(tile_square(), 8, 736),
                SpriteSheetId::WaterCalm => grid_cells(tile_square(), 3, 4),
                SpriteSheetId::WaterDeep => grid_cells(tile_square(), 24, 4),
            },
            atlas_size(layout) == match *self {
                SpriteSheetId::Outside => (256u32, 28416u32),
                SpriteSheetId::Inside => (256u32, 23552u32),
                SpriteSheetId::WaterCalm => (96u32, 128u32),
                SpriteSheetId::WaterDeep => (768u32, 128u32),
            },
            atlas_size(layout) == (
                (TILE_SIZE * self.grid_spec().0) as u32,
                (TILE_SIZE * self.grid_spec().1) as u32,
            ),
    {
        let tile = UVec2::splat(TILE_SIZE);
        match self {
            SpriteSheetId::Outside => atlas_from_grid(tile, 8, 888),
            SpriteSheetId::Inside => atlas_from_grid(tile, 8, 736),
            SpriteSheetId::WaterCalm => atlas_from_grid(tile, 3, 4),
            SpriteSheetId::WaterDeep => atlas_from_grid(tile, 24, 4),
        }
    }
}

/// Each sprite sheet is cut into the columns and rows of tiles its image holds: Outside 8 by
/// 888, Inside 8 by 736, the calm water 3 by 4 and the water with shore 24 by 4 tiles of 32
/// pixels, so every cell is a whole tile of its image.
pub proof fn lemma_sprite_sheet_grids(id: SpriteSheetId)
    ensures
        id == SpriteSheetId::Outside ==> id.grid_spec() == (8u32, 888u32),
        id == SpriteSheetId::Inside ==> id.grid_spec() == (8u32, 736u32),
        id == SpriteSheetId::WaterCalm ==> id.grid_spec() == (3u32, 4u32),
        id == SpriteSheetId::WaterDeep ==> id.grid_spec() == (24u32, 4u32),
        TILE_SIZE == 32,
{
}

/// Where each sprite sheet's image is found.
pub proof fn lemma_sprite_sheet_paths(id: SpriteSheetId)
    ensures
        id == SpriteSheetId::Outside ==> id.path_spec() == "sprites/tilesets/Outside.png"@,
        id == SpriteSheetId::Inside ==> id.path_spec() == "sprites/tilesets/Inside.png"@,
        id == SpriteSheetId::WaterCalm ==> id.path_spec() == "sprites/autotiles/water_calm.png"@,
        id == SpriteSheetId::WaterDeep ==> id.path_spec() == "sprites/autotiles/water_with_shore.png"@,
{
}

} // verus!
