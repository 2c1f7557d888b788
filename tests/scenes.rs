use bella::instance::{bella_instance_reset, Instance};

#[test]
fn new_scenes_get_increasing_ids() {
    let mut instance = Instance::new();
    assert_eq!(instance.max_scene_id(), 0);
    assert!(instance.new_scene("background").is_some());
    assert!(instance.new_scene("player").is_some());
    assert_eq!(instance.max_scene_id(), 2);
    assert_eq!(instance.scene_count(), 2);
    assert_eq!(instance.scene_id("background"), Some(1));
    assert_eq!(instance.scene_id("player"), Some(2));
}

#[test]
fn unknown_scene_is_absent() {
    let mut instance = Instance::default();
    assert!(instance.get_scene("missing").is_none());
    instance.new_scene("present");
    assert!(instance.get_scene("missing").is_none());
    assert!(instance.get_scene("present").is_some());
    assert_eq!(instance.scene_id("missing"), None);
}

#[test]
fn reused_name_refers_to_newest_scene() {
    let mut instance = Instance::new();
    instance.new_scene("ui");
    instance.new_scene("world");
    instance.new_scene("ui");
    assert_eq!(instance.scene_id("ui"), Some(3));
    assert_eq!(instance.scene_id("world"), Some(2));
    assert_eq!(instance.scene_count(), 3);
}

#[test]
fn reset_keeps_scenes_and_names() {
    let mut instance = Instance::new();
    instance.new_scene("a");
    instance.new_scene("b");
    bella_instance_reset(&mut instance);
    assert_eq!(instance.scene_count(), 2);
    assert_eq!(instance.scene_id("b"), Some(2));
    let _ = instance.scene(1);
}

#[test]
fn resolution_is_recorded() {
    let mut instance = Instance::new();
    assert_eq!(instance.resolution(), (0, 0));
    instance.set_resolution(1280, 720);
    assert_eq!(instance.resolution(), (1280, 720));
}
