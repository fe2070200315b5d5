use game_engine::asset::{Asset, AssetList, Sprite};
use game_engine::element::{ElemColor, ElemPoint, Game, GameConfig, Object, ObjectInitInfo, SceneSwitchError};

fn info(idx: u32, color: &str) -> ObjectInitInfo {
    ObjectInitInfo {
        idx_in_stack: idx,
        init_x: 10.0f32.to_bits(),
        init_y: 20.0f32.to_bits(),
        init_scale_x: 1.0f32.to_bits(),
        init_scale_y: 2.0f32.to_bits(),
        init_color: color.to_string(),
        init_alpha: 128,
    }
}

#[test]
fn object_from_config() {
    let mut obj = Object::new(&vec![3, 4], info(7, "#FF0000"));
    assert_eq!(obj.get_index_in_stack(), 7);
    assert_eq!(obj.get_color(), ElemColor { r: 255, g: 0, b: 0, a: 128 });
    assert_eq!(f32::from_bits(obj.get_position().x), 10.0);
    assert_eq!(f32::from_bits(obj.get_scale().y), 2.0);
    let sprites = obj.get_sprites();
    assert_eq!(sprites.len, 2);
    assert_eq!(sprites.members.iter().map(|s| s.id).collect::<Vec<_>>(), vec![3, 4]);
}

#[test]
fn set_sprites_needs_the_same_sprites() {
    let mut obj = Object::new(&vec![3, 4], info(0, "#000000"));
    let mut same = obj.get_sprites();
    same.set_cur_asset(1);
    obj.set_sprites(same);
    assert_eq!(obj.sprites.cur_asset, 1);
    let other = AssetList::new(vec![<Sprite as Asset>::new(3), <Sprite as Asset>::new(5)]);
    obj.set_sprites(other);
    assert_eq!(obj.sprites.members[1].id, 4);
    let shorter = AssetList::new(vec![<Sprite as Asset>::new(3)]);
    obj.set_sprites(shorter);
    assert_eq!(obj.sprites.len, 2);
}

#[test]
fn object_recycle_keeps_stack_index() {
    let mut obj = Object::new(&vec![3, 4, 5], info(2, "#000000"));
    obj.set_position(ElemPoint { x: 1, y: 1 });
    obj.recycle(&vec![9], info(8, "#0000FF"));
    assert_eq!(obj.index_in_stack, 2);
    assert_eq!(obj.sprites.len, 1);
    assert_eq!(obj.sprites.members[0].id, 9);
    assert_eq!(obj.sprites.members.len(), 3);
    assert_eq!(obj.color, ElemColor { r: 0, g: 0, b: 255, a: 128 });
    assert_eq!(f32::from_bits(obj.position.x), 10.0);
    obj.set_scale(ElemPoint { x: 3, y: 3 });
    obj.set_color(ElemColor { r: 1, g: 2, b: 3, a: 4 });
    assert_eq!(obj.scale, ElemPoint { x: 3, y: 3 });
    assert_eq!(obj.color.a, 4);
}

#[test]
fn state_manager_properties() {
    let mut game = Game::new(&GameConfig {
        initial_scene: 4,
        canvas_width: 640.0f32.to_bits(),
        canvas_height: 480.0f32.to_bits(),
        fps: 60,
        version: [1, 0, 2, 0],
        clear_color: "#203040".to_string(),
    });
    assert_eq!(game.get_cur_scene(), 4);
    assert_eq!(game.get_fps(), 60);
    assert_eq!(game.get_version(), vec![1, 0, 2, 0]);
    assert_eq!((game.get_clear_red(), game.get_clear_green(), game.get_clear_blue()), (0x20, 0x30, 0x40));
    assert_eq!(game.set_cur_scene(9, 1), Err(SceneSwitchError::NotAScene));
    assert_eq!(game.get_cur_scene(), 4);
    assert_eq!(game.set_cur_scene(9, 2), Ok(()));
    assert_eq!(game.get_cur_scene(), 9);
    game.set_fps(65536 + 30);
    assert_eq!(game.get_fps(), 30);
    game.set_clear_red(-2);
    game.set_clear_green(256);
    game.set_clear_blue(17);
    assert_eq!((game.clear_red, game.clear_green, game.clear_blue), (254, 0, 17));
    assert_eq!(SceneSwitchError::NotAScene.message(), "Tried to switch to a scene that doesn't exist.");
}
