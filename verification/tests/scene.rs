use game_engine::element::{Camera, ElemColor, ElemPoint, Layer, ObjectSlot, Scene, SceneConfig};

fn config(layers: &[&str], instances: usize) -> SceneConfig {
    SceneConfig {
        layers: layers.iter().map(|s| s.to_string()).collect(),
        object_instances: instances,
        camera_x: 1.5f32.to_bits(),
        camera_y: (-2.0f32).to_bits(),
        camera_zoom: 1.0f32.to_bits(),
        camera_color: "#102030".to_string(),
        camera_alpha: 200,
    }
}

fn instances(scene: &Scene) -> Vec<Vec<u32>> {
    scene.layers.iter().map(|l| l.instances.clone()).collect()
}

#[test]
fn new_scene_from_config() {
    let mut scene = Scene::new(&config(&["back", "front"], 3));
    assert_eq!(scene.layers_len, 2);
    assert_eq!(scene.get_objects_len(), 3);
    assert_eq!(scene.get_runtimes_len(), 0);
    let cam = scene.get_camera();
    assert_eq!(cam.color, ElemColor { r: 0x10, g: 0x20, b: 0x30, a: 200 });
    assert_eq!(f32::from_bits(cam.position.x), 1.5);
    let names: Vec<String> = scene.get_layers().into_iter().map(|mut l| l.get_name()).collect();
    assert_eq!(names, vec!["back", "front"]);
}

#[test]
fn add_instance_rules() {
    let mut scene = Scene::new(&config(&["back", "front"], 3));
    assert!(scene.add_instance(0, 1));
    assert!(!scene.add_instance(0, 0), "an instance is in one layer only");
    assert!(!scene.add_instance(1, 2), "layer out of range");
    assert!(!scene.add_instance(1, -1), "negative layer");
    assert!(!scene.add_instance(3, 0), "instance not on the stack");
    assert!(scene.add_instance(2, 1));
    assert_eq!(instances(&scene), vec![vec![], vec![0, 2]]);
}

#[test]
fn remove_instance_swaps_last_in() {
    let mut scene = Scene::new(&config(&["a"], 4));
    for i in 0..4 {
        assert!(scene.add_instance(i, 0));
    }
    assert!(scene.remove_instance(1));
    assert_eq!(instances(&scene), vec![vec![0, 3, 2]]);
    assert!(!scene.remove_instance(1));
    assert_eq!(scene.get_runtime_vacants(), Vec::<u32>::new());
}

#[test]
fn remove_then_add_of_runtime_object_tracks_vacancy() {
    let mut scene = Scene::new(&config(&["a", "b"], 1));
    assert_eq!(scene.place_runtime_object(1), ObjectSlot::New { idx_in_stack: 1 });
    assert_eq!(scene.register_runtime_object(), 1);
    assert_eq!(scene.get_runtime_vacants(), vec![1]);
    assert!(scene.add_instance(1, 1));
    assert_eq!(scene.get_runtime_vacants(), Vec::<u32>::new());
    assert_eq!(scene.object_is_active(1), 1);
    assert!(scene.remove_instance(1));
    assert_eq!(scene.get_runtime_vacants(), vec![1]);
    assert_eq!(scene.object_is_active(1), -1);
    assert_eq!(scene.place_runtime_object(2), ObjectSlot::Vacant { slot: 1, idx_in_stack: 2 });
}

#[test]
fn add_then_remove_restores_layers() {
    let mut scene = Scene::new(&config(&["a", "b"], 5));
    assert!(scene.add_instance(3, 0));
    assert!(scene.add_instance(4, 0));
    let before = instances(&scene);
    assert!(scene.add_instance(1, 0));
    assert_eq!(scene.object_is_active(1), 0);
    assert!(scene.remove_instance(1));
    assert_eq!(instances(&scene), before);
}

#[test]
fn placement_prefers_smallest_vacant_then_unused_slot() {
    let mut scene = Scene::new(&config(&["a"], 2));
    assert_eq!(scene.place_runtime_object(5), ObjectSlot::Unused { slot: 2, idx_in_stack: 2 });
    scene.register_runtime_object();
    scene.register_runtime_object();
    assert_eq!(scene.get_runtime_vacants(), vec![2, 3]);
    assert_eq!(scene.place_runtime_object(4), ObjectSlot::Vacant { slot: 2, idx_in_stack: 4 });
    assert!(scene.add_instance(2, 0));
    assert_eq!(scene.place_runtime_object(4), ObjectSlot::Vacant { slot: 3, idx_in_stack: 4 });
}

#[test]
fn object_validity() {
    let mut scene = Scene::new(&config(&["a"], 2));
    assert!(scene.object_is_valid(0));
    assert!(scene.object_is_valid(1));
    assert!(!scene.object_is_valid(2));
    assert!(!scene.object_is_valid(-1));
    scene.register_runtime_object();
    assert!(scene.object_is_valid(2));
}

#[test]
fn recycle_keeps_extra_layers_hidden() {
    let mut scene = Scene::new(&config(&["a", "b", "c"], 3));
    assert!(scene.add_instance(1, 2));
    scene.recycle(&config(&["x"], 3));
    assert_eq!(scene.layers_len, 1);
    assert_eq!(scene.layers.len(), 3);
    assert_eq!(scene.layers[0].name, "x");
    assert_eq!(instances(&scene), vec![vec![], vec![], vec![1]]);
    // only the layers in use hold instances: the hidden layer's old entry
    // neither makes instance 1 active nor keeps it from being added
    assert_eq!(scene.object_is_active(1), -1);
    assert!(scene.add_instance(1, 0));
    assert_eq!(scene.object_is_active(1), 0);
    assert!(scene.add_instance(0, 0));
}

#[test]
fn camera_setters() {
    let mut scene = Scene::new(&config(&["a"], 0));
    let cam = Camera { position: ElemPoint { x: 0, y: 0 }, zoom: 2.0f32.to_bits(), color: ElemColor { r: 1, g: 1, b: 1, a: 1 } };
    scene.set_camera(cam);
    let mut got = scene.get_camera();
    assert_eq!(got, cam);
    got.set_color(ElemColor { r: 9, g: 9, b: 9, a: 9 });
    assert_eq!(got.get_color().r, 9);
    got.set_position(ElemPoint { x: 7, y: 8 });
    assert_eq!(got.get_position(), ElemPoint { x: 7, y: 8 });
}

#[test]
fn layer_description() {
    let mut layer = Layer { name: "front".to_string(), instances: vec![4, 12] };
    assert_eq!(layer.to_string(), "Name: front\nInstances:\n\n\t#1 - 4\n\n\t#2 - 12");
    let mut empty = Layer { name: "e".to_string(), instances: vec![] };
    assert_eq!(empty.to_string(), "Name: e\nInstances:");
    assert_eq!(layer.get_instances(), vec![4, 12]);
}
