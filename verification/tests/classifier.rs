use scene_switcher::title_map::{TitleEntry, TitleMap};

fn seeded() -> TitleMap {
    let mut map = TitleMap::new();
    map.insert("Paint".to_string(), "Art".to_string());
    map.insert("Blender".to_string(), "Model".to_string());
    map.insert("Paint Shop".to_string(), "Shop".to_string());
    map
}

#[test]
fn a_new_map_is_empty() {
    let map = TitleMap::new();
    assert_eq!(map.len(), 0);
    assert_eq!(map.get("Paint"), None);
    assert_eq!(map.next_match("Paint", 0), None);
    assert!(map.match_title("Paint").is_empty());
}

#[test]
fn entries_keep_insertion_order() {
    let map = seeded();
    assert_eq!(map.len(), 3);
    assert_eq!(map.title(0), "Paint");
    assert_eq!(map.scene_name(0), "Art");
    assert_eq!(map.title(1), "Blender");
    assert_eq!(map.scene_name(1), "Model");
    assert_eq!(map.title(2), "Paint Shop");
    assert_eq!(map.scene_name(2), "Shop");
}

#[test]
fn insert_overwrites_in_place() {
    let mut map = seeded();
    map.insert("Paint".to_string(), "Sketch".to_string());
    assert_eq!(map.len(), 3);
    assert_eq!(map.title(0), "Paint");
    assert_eq!(map.scene_name(0), "Sketch");
    assert_eq!(map.scene_name(1), "Model");
    assert_eq!(map.get("Paint").map(|s| s.as_str()), Some("Sketch"));
}

#[test]
fn get_goes_by_the_exact_pattern() {
    let map = seeded();
    assert_eq!(map.get("Blender").map(|s| s.as_str()), Some("Model"));
    assert_eq!(map.get("Blend"), None);
    assert_eq!(map.get("blender"), None);
    assert_eq!(map.get("Blender "), None);
}

#[test]
fn a_title_matches_by_substring() {
    let map = seeded();
    assert_eq!(map.match_title("My Paint App"), vec![0]);
    assert_eq!(map.match_title("Blender"), vec![1]);
    assert_eq!(map.match_title("xBlenderx - Paint Shop Pro"), vec![0, 1, 2]);
}

#[test]
fn matching_is_case_sensitive() {
    let map = seeded();
    assert!(map.match_title("paint").is_empty());
    assert!(map.match_title("BLENDER").is_empty());
}

#[test]
fn the_pattern_must_stand_in_one_piece() {
    let map = seeded();
    assert!(map.match_title("Pa int").is_empty());
    assert!(map.match_title("Pain").is_empty());
    assert!(map.match_title("tniaP").is_empty());
}

#[test]
fn an_empty_title_matches_no_pattern_with_text() {
    let map = seeded();
    assert!(map.match_title("").is_empty());
    assert_eq!(map.next_match("", 0), None);
}

#[test]
fn an_empty_pattern_matches_every_title() {
    let mut map = TitleMap::new();
    map.insert(String::new(), "Anything".to_string());
    assert_eq!(map.match_title(""), vec![0]);
    assert_eq!(map.match_title("whatever"), vec![0]);
}

#[test]
fn next_match_starts_where_it_is_told() {
    let map = seeded();
    let title = "Paint Shop";
    assert_eq!(map.next_match(title, 0), Some(0));
    assert_eq!(map.next_match(title, 1), Some(2));
    assert_eq!(map.next_match(title, 2), Some(2));
    assert_eq!(map.next_match(title, 3), None);
    assert_eq!(map.next_match(title, usize::MAX), None);
}

#[test]
fn matching_goes_by_characters() {
    let mut map = TitleMap::new();
    map.insert("é".to_string(), "Accent".to_string());
    map.insert("絵".to_string(), "Kanji".to_string());
    assert_eq!(map.match_title("café"), vec![0]);
    assert_eq!(map.match_title("お絵描き"), vec![1]);
    assert!(map.match_title("cafe").is_empty());
}

#[test]
fn an_entry_is_a_pattern_and_a_scene_name() {
    let entry = TitleEntry { title: "Paint".to_string(), scene_name: "Art".to_string() };
    assert_eq!(entry.title, "Paint");
    assert_eq!(entry.scene_name, "Art");
}
