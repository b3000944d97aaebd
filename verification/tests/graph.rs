use scene_switcher::scene_nums::{SceneNums, Transition, MAX_SCENES};

#[test]
fn interning_starts_at_one() {
    let mut table = SceneNums::new();
    assert_eq!(table.len(), 0);
    assert_eq!(table.get_num("Art"), 1);
    assert_eq!(table.get_num("Game"), 2);
    assert_eq!(table.get_num("Art"), 1);
    assert_eq!(table.len(), 2);
}

#[test]
fn interning_is_stable_over_many_names() {
    let mut table = SceneNums::new();
    let names: Vec<String> = (0..200).map(|i| format!("scene-{}", i)).collect();
    for (i, name) in names.iter().enumerate() {
        assert_eq!(table.get_num(name) as usize, i + 1);
    }
    for (i, name) in names.iter().enumerate().rev() {
        assert_eq!(table.get_num(name) as usize, i + 1);
    }
    assert_eq!(table.len(), 200);
}

#[test]
fn distinct_names_get_distinct_numbers() {
    let mut table = SceneNums::new();
    let a = table.get_num("Art-Clip");
    let b = table.get_num("Art-Clip ");
    let c = table.get_num("art-clip");
    let d = table.get_num("");
    assert_eq!((a, b, c, d), (1, 2, 3, 4));
}

#[test]
fn adding_a_transition_does_not_touch_the_names() {
    let mut table = SceneNums::new();
    let a = table.get_num("A");
    let b = table.get_num("B");
    table.add_transition(a, b);
    assert_eq!(table.len(), 2);
    assert_eq!(table.get_num("A"), a);
    assert_eq!(table.get_num("B"), b);
    assert_eq!(table.get_num("C"), 3);
}

#[test]
fn a_new_graph_has_no_transitions() {
    let table = SceneNums::new();
    assert_eq!(table.transition_count(), 0);
    assert!(!table.has_transition(1, 2));
    assert!(!table.has_transition(0, 0));
}

#[test]
fn self_loops_are_ignored() {
    let mut table = SceneNums::new();
    table.add_transition(7, 7);
    assert!(!table.has_transition(7, 7));
    assert_eq!(table.transition_count(), 0);
    table.add_transition(7, 8);
    table.add_transition(8, 8);
    assert!(!table.has_transition(8, 8));
    assert_eq!(table.transition_count(), 1);
}

#[test]
fn adding_twice_is_adding_once() {
    let mut table = SceneNums::new();
    table.add_transition(1, 2);
    assert_eq!(table.transition_count(), 1);
    table.add_transition(1, 2);
    assert_eq!(table.transition_count(), 1);
    assert!(table.has_transition(1, 2));
}

#[test]
fn transitions_are_directed() {
    let mut table = SceneNums::new();
    table.add_transition(1, 2);
    assert!(table.has_transition(1, 2));
    assert!(!table.has_transition(2, 1));
    table.add_transition(2, 1);
    assert!(table.has_transition(2, 1));
    assert_eq!(table.transition_count(), 2);
}

#[test]
fn only_direct_edges_count() {
    let mut table = SceneNums::new();
    table.add_transition(1, 2);
    table.add_transition(2, 3);
    assert!(!table.has_transition(1, 3));
}

#[test]
fn numbers_need_not_be_interned_to_be_linked() {
    let mut table = SceneNums::new();
    table.add_transition(u16::MAX, 0);
    assert!(table.has_transition(u16::MAX, 0));
    assert!(!table.has_transition(0, u16::MAX));
}

#[test]
fn a_transition_is_a_pair_of_numbers() {
    let t = Transition { src: 3, dst: 4 };
    let u = t;
    assert_eq!((t.src, t.dst), (3, 4));
    assert_eq!((u.src, u.dst), (3, 4));
}

#[test]
fn every_number_is_a_nonzero_u16() {
    assert_eq!(MAX_SCENES, u16::MAX as usize);
}
