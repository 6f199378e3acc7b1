//! Verified core of a tile-based overworld engine: grids of tiles, character
//! movement rules, loading progress and animation frame bookkeeping.

use vstd::prelude::*;

pub mod animation;
pub mod asset_folder;
pub mod assets;
pub mod camera;
pub mod character;
pub mod event;
pub mod grid;
pub mod lozo;
pub mod math;
pub mod progress;
pub mod tile;

verus! {

/// A textual identifier attached to an entity.
pub struct Id(pub String);

} // verus!
