use game_engine::game::TableRow;
use game_engine::renderer::{image_asset_rowid, AssetDefinitionError};
use game_engine::asset::{Asset, Sprite};
use game_engine::renderer::{
    batch_is_full, draw_count, load_image, quad_indices, settle_animation_frame, ImageError, TextureSlots,
    TextureUnit, FLOATS_PER_BATCH,
};

const RED_BLUE_PNG: [u8; 71] = [
    137, 80, 78, 71, 13, 10, 26, 10, 0, 0, 0, 13, 73, 72, 68, 82, 0, 0, 0, 2, 0, 0, 0, 1, 8, 6, 0, 0, 0,
    244, 34, 127, 138, 0, 0, 0, 14, 73, 68, 65, 84, 120, 156, 99, 248, 207, 192, 0, 66, 13, 0, 15, 122,
    3, 126, 119, 233, 127, 151, 0, 0, 0, 0, 73, 69, 78, 68, 174, 66, 96, 130,
];

#[test]
fn index_buffer_draws_two_triangles_per_quad() {
    let indices = quad_indices(1000);
    assert_eq!(indices.len(), 6000);
    assert_eq!(&indices[0..6], &[0, 1, 2, 2, 1, 3]);
    assert_eq!(&indices[6..12], &[4, 5, 6, 6, 5, 7]);
    assert_eq!(&indices[5994..6000], &[3996, 3997, 3998, 3998, 3997, 3999]);
}

#[test]
fn batch_limits() {
    assert!(!batch_is_full(0));
    assert!(!batch_is_full(51999));
    assert!(batch_is_full(FLOATS_PER_BATCH as usize));
    assert_eq!(draw_count(52), 6);
    assert_eq!(draw_count(52 * 1000), 6000);
    assert_eq!(draw_count(0), 0);
}

#[test]
fn texture_units_are_reused_then_filled_then_flushed() {
    let mut slots = TextureSlots::new(3);
    assert_eq!(slots.assign(7), TextureUnit::Bind(1));
    assert_eq!(slots.assign(7), TextureUnit::Bound(1));
    assert_eq!(slots.assign(9), TextureUnit::Bind(2));
    assert_eq!(slots.assign(0), TextureUnit::Bound(0));
    assert_eq!(slots.assign(11), TextureUnit::FlushAndBind(1));
    assert_eq!(slots.slots, vec![0, 11]);
    slots.reset();
    assert_eq!(slots.slots, vec![0]);
}

#[test]
fn frames_past_the_end() {
    let mut sprite = <Sprite as Asset>::new(1);
    sprite.play_animation("walk");
    settle_animation_frame(&mut sprite, 2, 4);
    assert_eq!(sprite.cur_frame, 2);
    assert!(!sprite.is_animation_finished);
    settle_animation_frame(&mut sprite, 9, 4);
    assert_eq!(sprite.cur_frame, 3);
    assert!(sprite.is_animation_finished);

    sprite.play_animation_on_time("walk", 500.0f64.to_bits());
    sprite.set_repeat(true);
    settle_animation_frame(&mut sprite, 4, 4);
    assert_eq!(sprite.cur_frame, 0);
    assert_eq!(sprite.animation_time, 0.0f64.to_bits());
    assert!(!sprite.is_animation_finished);
}

#[test]
fn png_is_decoded_and_sized_from_its_header() {
    let img = load_image(&RED_BLUE_PNG).expect("valid png");
    assert_eq!(img.width, 2);
    assert_eq!(img.height, 1);
    assert_eq!(img.pixels, vec![255, 0, 0, 255, 0, 0, 255, 128]);
}

#[test]
fn broken_images_are_refused() {
    assert_eq!(load_image(&RED_BLUE_PNG[0..20]).err(), Some(ImageError::Truncated));
    let mut garbled = RED_BLUE_PNG;
    garbled[40] ^= 0xff;
    garbled[50] ^= 0xff;
    assert_eq!(load_image(&garbled).err(), Some(ImageError::NotPng));
    let mut not_png = [0u8; 30];
    not_png[19] = 5;
    assert_eq!(load_image(&not_png).err(), Some(ImageError::NotPng));
}

#[test]
fn only_sprite_assets_load_images() {
    assert_eq!(image_asset_rowid(TableRow::Asset(4, 1)), Ok(4));
    assert_eq!(image_asset_rowid(TableRow::Asset(4, 2)), Err(AssetDefinitionError::Unsupported));
    assert_eq!(image_asset_rowid(TableRow::Asset(4, 3)), Err(AssetDefinitionError::Unsupported));
    assert_eq!(image_asset_rowid(TableRow::Element(4, 1)), Err(AssetDefinitionError::ElementAsAsset));
    assert_eq!(image_asset_rowid(TableRow::Metadata), Err(AssetDefinitionError::ElementAsAsset));
    assert_eq!(AssetDefinitionError::ElementAsAsset.message(), "Can't define an element as an asset.");
    assert!(AssetDefinitionError::Unsupported.message().starts_with("Audio / Font asset definitions"));
}
