use scene_switcher::live_scenes::{LiveScene, LiveScenes};

#[test]
fn an_empty_snapshot_knows_nothing() {
    let scenes = LiveScenes::new();
    assert_eq!(scenes.len(), 0);
    assert_eq!(scenes.scene_by_name("Art"), None);
    assert_eq!(scenes.name_by_scene(0), None);
}

#[test]
fn scenes_are_found_by_name_and_by_handle() {
    let mut scenes = LiveScenes::new();
    scenes.insert("Art".to_string(), 11);
    scenes.insert("Game".to_string(), 22);
    assert_eq!(scenes.len(), 2);
    assert_eq!(scenes.scene_by_name("Art"), Some(11));
    assert_eq!(scenes.scene_by_name("Game"), Some(22));
    assert_eq!(scenes.scene_by_name("art"), None);
    assert_eq!(scenes.name_by_scene(11).map(|s| s.as_str()), Some("Art"));
    assert_eq!(scenes.name_by_scene(22).map(|s| s.as_str()), Some("Game"));
    assert_eq!(scenes.name_by_scene(33), None);
}

#[test]
fn the_last_scene_listed_under_a_name_wins() {
    let mut scenes = LiveScenes::new();
    scenes.insert("Art".to_string(), 11);
    scenes.insert("Game".to_string(), 22);
    scenes.insert("Art".to_string(), 33);
    assert_eq!(scenes.scene_by_name("Art"), Some(33));
    assert_eq!(scenes.name_by_scene(11).map(|s| s.as_str()), Some("Art"));
    assert_eq!(scenes.name_by_scene(33).map(|s| s.as_str()), Some("Art"));
}

#[test]
fn the_last_name_listed_for_a_handle_wins() {
    let mut scenes = LiveScenes::new();
    scenes.insert("Art".to_string(), 11);
    scenes.insert("Game".to_string(), 11);
    assert_eq!(scenes.name_by_scene(11).map(|s| s.as_str()), Some("Game"));
    assert_eq!(scenes.scene_by_name("Art"), Some(11));
    assert_eq!(scenes.scene_by_name("Game"), Some(11));
}

#[test]
fn names_that_are_not_utf8_are_decoded_with_replacement_characters() {
    let mut scenes = LiveScenes::new();
    scenes.insert_lossy(b"Art", 1);
    scenes.insert_lossy(b"Art\xff", 2);
    scenes.insert_lossy("Séance".as_bytes(), 3);
    assert_eq!(scenes.scene_by_name("Art"), Some(1));
    assert_eq!(scenes.scene_by_name("Art\u{fffd}"), Some(2));
    assert_eq!(scenes.name_by_scene(2).map(|s| s.as_str()), Some("Art\u{fffd}"));
    assert_eq!(scenes.name_by_scene(3).map(|s| s.as_str()), Some("Séance"));
}

#[test]
fn a_live_scene_is_a_name_and_a_handle() {
    let scene = LiveScene { name: "Art".to_string(), scene: 5 };
    assert_eq!(scene.name, "Art");
    assert_eq!(scene.scene, 5);
}
