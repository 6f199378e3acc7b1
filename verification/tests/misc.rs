use engine::asset_folder::{asset_id, fill_asset_map, AssetLoadStatus, LoadState};
use engine::assets::{derive_texture_atlas_layout, SpriteSheetId, TextureAtlasLayoutError};
use engine::math::UVec2;
use engine::camera::pixel_perfect_size;
use engine::Id;

#[test]
fn folder_update_sorts_handles() {
    let update = fill_asset_map(vec![
        ("a", "a.png".to_string(), AssetLoadStatus::Loaded),
        ("b", "b.png".to_string(), AssetLoadStatus::Pending),
        ("c", "c.png".to_string(), AssetLoadStatus::Failed),
        ("d", "world.lozo.ron".to_string(), AssetLoadStatus::Loaded),
        ("e", "e.png".to_string(), AssetLoadStatus::Pending),
    ]);
    assert_eq!(update.still_loading, vec!["b", "e"]);
    assert_eq!(update.loaded, vec![("a".to_string(), "a"), ("world".to_string(), "d")]);
    assert_eq!(update.settled, 3);
}

#[test]
fn asset_ids_stop_at_the_first_dot() {
    assert_eq!(asset_id("world.lozo.ron"), "world");
    assert_eq!(asset_id("brendan.char.ron"), "brendan");
    assert_eq!(asset_id("plain"), "plain");
    assert_eq!(asset_id(".hidden"), "");
    assert_eq!(asset_id(""), "");
}

#[test]
fn load_states() {
    assert!(LoadState::finished().is_finished());
    assert!(!LoadState::loading().is_finished());
    assert!(!LoadState::handles_present().is_finished());
    assert_eq!(LoadState::default(), LoadState::idle());
}

#[test]
fn pixel_perfect_sizes_are_even() {
    assert_eq!(pixel_perfect_size(7), 6);
    assert_eq!(pixel_perfect_size(8), 8);
    assert_eq!(pixel_perfect_size(2), 2);
}

#[test]
fn sprite_sheet_paths() {
    assert_eq!(SpriteSheetId::Outside.path(), "sprites/tilesets/Outside.png");
    assert_eq!(SpriteSheetId::WaterDeep.path(), "sprites/autotiles/water_with_shore.png");
}

#[test]
fn ids_hold_text() {
    let id = Id("player".to_string());
    assert_eq!(id.0, "player");
}

#[test]
fn atlas_cut_from_whole_tiles() {
    let layout = derive_texture_atlas_layout(UVec2::new(64, 96)).ok().unwrap();
    assert_eq!(layout.len(), 6);
    assert_eq!(layout.size, bevy::math::UVec2::new(64, 96));
    assert_eq!(layout.textures[1].min, bevy::math::UVec2::new(32, 0));
    assert_eq!(layout.textures[5].min, bevy::math::UVec2::new(32, 64));
    assert_eq!(layout.textures[5].max, bevy::math::UVec2::new(64, 96));
}

#[test]
fn atlas_refuses_partial_tiles() {
    assert_eq!(derive_texture_atlas_layout(UVec2::new(50, 64)).err(), Some(TextureAtlasLayoutError));
    assert_eq!(derive_texture_atlas_layout(UVec2::new(64, 31)).err(), Some(TextureAtlasLayoutError));
}

#[test]
fn sprite_sheet_layouts() {
    let layout = SpriteSheetId::WaterCalm.texture_atlas_layout();
    assert_eq!(layout.len(), 12);
    assert_eq!(layout.size, bevy::math::UVec2::new(96, 128));
    assert_eq!(layout.textures[4].min, bevy::math::UVec2::new(32, 32));
    assert_eq!(layout.textures[4].max, bevy::math::UVec2::new(64, 64));
    let outside = SpriteSheetId::Outside.texture_atlas_layout();
    assert_eq!(outside.len(), 8 * 888);
    assert_eq!(outside.textures[9].min, bevy::math::UVec2::new(32, 32));
}
