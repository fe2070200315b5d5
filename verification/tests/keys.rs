use game_engine::engine_api::{KeyState, KeyStates};

#[test]
fn unknown_keys_read_as_up() {
    let keys = KeyStates::new();
    assert!(!keys.key_is_held("KeyA"));
    assert!(!keys.key_just_pressed("KeyA"));
    assert!(!keys.key_just_released("KeyA"));
    assert_eq!(keys.get("KeyA"), None);
}

#[test]
fn press_then_calibrate_keeps_key_held() {
    let mut keys = KeyStates::new();
    keys.key_down("KeyA", false);
    assert!(keys.key_is_held("KeyA"));
    assert!(keys.key_just_pressed("KeyA"));
    assert!(!keys.key_just_released("KeyA"));
    keys.calibrate();
    assert!(keys.key_is_held("KeyA"));
    assert!(!keys.key_just_pressed("KeyA"));
    assert_eq!(keys.get("KeyA"), Some(KeyState { is_held: true, just_pressed: false, just_released: false }));
}

#[test]
fn release_reads_as_just_released_for_one_frame() {
    let mut keys = KeyStates::new();
    keys.key_down("Space", false);
    keys.calibrate();
    keys.key_up("Space", false);
    assert!(!keys.key_is_held("Space"));
    assert!(keys.key_just_released("Space"));
    keys.calibrate();
    assert!(!keys.key_just_released("Space"));
    assert!(!keys.key_is_held("Space"));
}

#[test]
fn repeats_are_ignored() {
    let mut keys = KeyStates::new();
    keys.key_down("KeyB", true);
    assert_eq!(keys.get("KeyB"), None);
    keys.key_down("KeyB", false);
    keys.calibrate();
    keys.key_down("KeyB", true);
    assert!(!keys.key_just_pressed("KeyB"));
    keys.key_up("KeyB", true);
    assert!(keys.key_is_held("KeyB"));
}

#[test]
fn down_and_up_in_one_frame() {
    let mut keys = KeyStates::new();
    keys.key_down("KeyC", false);
    keys.key_up("KeyC", false);
    keys.key_down("KeyD", false);
    assert!(keys.key_just_released("KeyC"));
    assert!(!keys.key_just_pressed("KeyC"));
    assert!(keys.key_just_pressed("KeyD"));
    keys.calibrate();
    assert_eq!(keys.get("KeyC"), Some(KeyState { is_held: false, just_pressed: false, just_released: false }));
    assert!(keys.key_is_held("KeyD"));
}

#[test]
fn calibrate_leaves_unchanged_keys_alone() {
    let mut keys = KeyStates::new();
    keys.key_down("KeyE", false);
    keys.calibrate();
    keys.key_down("KeyF", false);
    keys.calibrate();
    assert_eq!(keys.get("KeyE"), Some(KeyState { is_held: true, just_pressed: false, just_released: false }));
    assert_eq!(keys.get("KeyF"), Some(KeyState { is_held: true, just_pressed: false, just_released: false }));
}
