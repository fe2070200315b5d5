use game_engine::asset::{clamped_index, Asset, AssetList, Audio, Font, PlaybackError, Sprite, ONE_F32_BITS};

fn fonts(ids: &[u32]) -> AssetList<Font> {
    AssetList::new(ids.iter().map(|&id| <Font as Asset>::new(id)).collect())
}

#[test]
fn negative_indices_count_from_the_end() {
    assert_eq!(clamped_index(-1, 3), 2);
    assert_eq!(clamped_index(-3, 3), 0);
    assert_eq!(clamped_index(-7, 3), 0);
    assert_eq!(clamped_index(i64::MIN, 3), 0);
    assert_eq!(clamped_index(1, 3), 1);
    assert_eq!(clamped_index(9, 3), 2);
    assert_eq!(clamped_index(3, 3), 2);
    assert_eq!(clamped_index(i64::MAX, 3), 2);
    assert_eq!(clamped_index(5, 0), 0);
    assert_eq!(clamped_index(-1, 0), 0);
}

#[test]
fn cursor_is_clamped() {
    let mut list = fonts(&[5, 6, 7]);
    list.set_cur_asset(10);
    assert_eq!(list.get_cur_asset(), 2);
    assert_eq!(list.get_asset(10).id, 7);
    list.set_cur_asset(-1);
    assert_eq!(list.get_cur_asset(), 2);
    list.set_cur_asset(-100);
    assert_eq!(list.get_cur_asset(), 0);
    assert_eq!(list.len(), 3);
}

#[test]
fn set_asset_ignores_other_rowids() {
    let mut list = fonts(&[5, 6, 7]);
    let mut replacement = <Font as Asset>::new(6);
    replacement.set_text("hello");
    list.set_asset(1, replacement);
    assert_eq!(list.get_asset(1).text, "hello");
    let mut stranger = <Font as Asset>::new(9);
    stranger.set_text("ignored");
    list.set_asset(-1, stranger);
    assert_eq!(list.get_asset(-1).id, 7);
    assert_eq!(list.get_asset(-1).text, "");
}

#[test]
fn find_only_reports_members_in_use() {
    let mut list = fonts(&[5, 6, 7]);
    assert_eq!(list.find(6), Some(1));
    assert_eq!(list.find(8), None);
    list.recycle(&vec![7]);
    assert_eq!(list.len, 1);
    assert_eq!(list.find(7), Some(0));
    // member 1 (rowid 6) is kept but no longer in use
    assert_eq!(list.find(6), None);
    assert_eq!(list.members.len(), 3);
    // rowids are cut to 32 bits
    assert_eq!(list.find(7 + (1i64 << 32)), Some(0));
}

#[test]
fn recycle_reuses_and_grows_members() {
    let mut list = fonts(&[1]);
    list.members[0].set_text("old");
    list.set_cur_asset(1);
    list.recycle(&vec![4, 5, 6]);
    assert_eq!(list.cur_asset, 0);
    assert_eq!(list.len, 3);
    let ids: Vec<u32> = list.members.iter().map(|f| f.id).collect();
    assert_eq!(ids, vec![4, 5, 6]);
    assert_eq!(list.members[0].text, "");
}

#[test]
fn sprite_refuses_changes_while_playing() {
    let mut sprite = <Sprite as Asset>::new(3);
    assert!(sprite.set_cur_animation("walk").is_ok());
    assert_eq!(sprite.get_cur_animation(), "walk");
    sprite.play_animation("run");
    assert!(!sprite.get_is_animation_finished());
    assert_eq!(sprite.set_cur_animation("idle"), Err(PlaybackError::AnimationWhilePlaying));
    assert_eq!(sprite.set_cur_frame(2), Err(PlaybackError::FrameWhilePlaying));
    assert_eq!(sprite.get_cur_animation(), "run");
    sprite.set_is_animation_finished(true);
    assert_eq!(sprite.set_cur_frame((1i64 << 32) + 2), Ok(()));
    assert_eq!(sprite.get_cur_frame(), 2);
    assert!(PlaybackError::FrameWhilePlaying.message().starts_with("Tried to set the current frame"));
}

#[test]
fn sprite_recycle_stops_animation() {
    let mut sprite = <Sprite as Asset>::new(3);
    sprite.play_animation_on_time("jump", 250.0f64.to_bits());
    sprite.set_repeat(true);
    assert_eq!(f64::from_bits(sprite.get_animation_time_bits()), 250.0);
    Asset::recycle(&mut sprite, 8);
    assert_eq!(sprite.get_id_rhai(), 8);
    assert!(sprite.get_is_animation_finished());
    assert!(!sprite.get_repeat());
    assert_eq!(sprite.animation_time, 0);
}

#[test]
fn audio_defaults_and_play() {
    let mut audio = <Audio as Asset>::new(2);
    assert_eq!(f32::from_bits(audio.volume), 1.0);
    assert_eq!(audio.volume, ONE_F32_BITS);
    audio.obtain_tag("music");
    assert_eq!(audio.get_tag(), "music");
    assert!(!audio.own_tag);
    audio.set_paused(true);
    audio.play();
    assert!(!audio.get_paused());
    assert!(audio.replay);
    assert_eq!(audio.get_id_rhai(), 2);
}
