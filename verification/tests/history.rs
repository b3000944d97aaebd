use scene_switcher::prev_title::PrevTitle;

#[test]
fn a_new_history_is_empty() {
    let history = PrevTitle::new();
    assert_eq!(history.cur_title, "");
    assert_eq!(history.prev_title, "");
}

#[test]
fn the_first_title_has_no_predecessor() {
    let mut history = PrevTitle::new();
    history.observe("A");
    assert_eq!(history.cur_title, "A");
    assert_eq!(history.prev_title, "");
}

#[test]
fn history_keeps_the_last_two_titles() {
    let mut history = PrevTitle::new();
    history.observe("A");
    history.observe("B");
    history.observe("C");
    assert_eq!(history.cur_title, "C");
    assert_eq!(history.prev_title, "B");
}

#[test]
fn the_same_title_twice_fills_both_places() {
    let mut history = PrevTitle::new();
    history.observe("A");
    history.observe("B");
    history.observe("B");
    assert_eq!(history.cur_title, "B");
    assert_eq!(history.prev_title, "B");
}

#[test]
fn history_does_not_depend_on_where_it_started() {
    let mut history = PrevTitle { cur_title: "x".to_string(), prev_title: "y".to_string() };
    history.observe("A");
    history.observe("B");
    assert_eq!(history.cur_title, "B");
    assert_eq!(history.prev_title, "A");
}
