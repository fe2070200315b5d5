use game_engine::lockable_asset::{AssetList, Audio, Font, LockError, Sprite};

fn sprites(ids: &[u32]) -> AssetList<Sprite> {
    AssetList::new(ids.iter().map(|&id| Sprite::new(id)).collect())
}

#[test]
fn lock_hides_other_members() {
    let mut list = sprites(&[10, 11, 12]);
    assert_eq!(list.lock_with_indcies(&vec![Some(-1), Some(0), Some(2)]), Ok(()));
    assert!(list.is_locked);
    assert_eq!(list.locked_on, vec![2, 0]);
    assert_eq!(list.len(), 2);
    assert_eq!(list.get_asset(0).map(|s| s.id), Ok(10));
    assert_eq!(list.get_asset(1).err(), Some(LockError::LockedGet));
    assert_eq!(list.set_asset(1, Sprite::new(99)), Err(LockError::LockedSet));
    assert_eq!(list.set_asset(-1, Sprite::new(99)), Ok(()));
    assert_eq!(list.members[2].id, 99);
}

#[test]
fn lock_only_once() {
    let mut list = sprites(&[1]);
    assert_eq!(list.lock(), Ok(()));
    assert_eq!(list.lock(), Err(LockError::AlreadyLocked));
    assert_eq!(list.lock_with_indcies(&vec![Some(0)]), Err(LockError::AlreadyLocked));
    assert_eq!(list.len(), 0);
}

#[test]
fn non_integer_index_stops_locking_part_way() {
    let mut list = sprites(&[1, 2, 3]);
    assert_eq!(list.lock_with_indcies(&vec![Some(1), None, Some(2)]), Err(LockError::NotAnIndex));
    assert!(!list.is_locked);
    assert_eq!(list.locked_on, vec![1]);
    assert_eq!(list.len(), 3);
    assert!(LockError::NotAnIndex.message().starts_with("When locking"));
}

#[test]
fn contains_follows_the_lock() {
    let mut list = sprites(&[4, 5, 4]);
    assert_eq!(list.contains(4), Some(0));
    assert_eq!(list.lock_with_indcies(&vec![Some(2)]), Ok(()));
    assert_eq!(list.contains(4), Some(2));
    assert_eq!(list.contains(5), None);
}

#[test]
fn recycle_unlocks() {
    let mut list = sprites(&[4, 5]);
    list.lock().unwrap();
    list.recycle(vec![7, -1, 8]);
    assert!(!list.is_locked);
    assert!(list.locked_on.is_empty());
    assert_eq!(list.len(), 3);
    let ids: Vec<u32> = list.members.iter().map(|s| s.id).collect();
    assert_eq!(ids, vec![7, u32::MAX, 8]);
}

#[test]
fn members_of_this_edition() {
    let mut audio = Audio::new(3);
    assert!(audio.get_paused());
    assert_eq!(f32::from_bits(audio.volume), 0.0);
    audio.play_with_tag("sfx");
    assert_eq!(audio.tag, "sfx");
    assert_eq!(f32::from_bits(audio.volume), 1.0);
    assert!(!audio.get_paused());
    audio.play();
    assert_eq!(audio.tag, "");
    audio.recycle(4);
    assert_eq!(audio.get_id(), 4);
    assert!(audio.paused);

    let mut font = Font::new(2);
    font.set_text("score");
    assert_eq!(font.get_text(), "score");
    font.recycle(6);
    assert_eq!(font.get_id(), 6);
    assert_eq!(font.get_text(), "");

    let mut fonts = AssetList::new(vec![Font::new(1), Font::new(2)]);
    assert_eq!(fonts.contains(2), Some(1));
    let mut audios = AssetList::new(vec![Audio::new(1)]);
    assert_eq!(audios.contains(1), Some(0));
}

#[test]
fn lock_positions_stop_one_past_the_end() {
    let mut list = sprites(&[1, 2, 3]);
    assert_eq!(list.lock_with_indcies(&vec![Some(9), Some(-9), Some(1)]), Ok(()));
    assert_eq!(list.locked_on, vec![3, 0, 1]);
    assert_eq!(list.get_asset(1).map(|s| s.id), Ok(2));
    assert_eq!(list.get_asset(2).err(), Some(LockError::LockedGet));
}
