use scene_switcher::engine::Action;
use scene_switcher::notifier::{
    is_focus_event, title_action, EVENT_SYSTEM_FOREGROUND, EVENT_SYSTEM_MINIMIZEEND,
};

#[test]
fn foreground_and_restore_are_focus_events() {
    assert_eq!(EVENT_SYSTEM_FOREGROUND, 0x0003);
    assert_eq!(EVENT_SYSTEM_MINIMIZEEND, 0x0017);
    assert!(is_focus_event(EVENT_SYSTEM_FOREGROUND));
    assert!(is_focus_event(EVENT_SYSTEM_MINIMIZEEND));
}

#[test]
fn other_events_are_not_focus_events() {
    assert!(!is_focus_event(0));
    assert!(!is_focus_event(0x0004));
    assert!(!is_focus_event(0x0016));
    assert!(!is_focus_event(u32::MAX));
}

#[test]
fn a_title_that_was_read_becomes_an_event() {
    let mut buf = [0u8; 1024];
    buf[..7].copy_from_slice(b"Blender");
    assert_eq!(title_action(&buf, 7), Some(Action::Title("Blender".to_string())));
}

#[test]
fn only_the_bytes_that_were_read_count() {
    let buf = *b"Blender 4.0";
    assert_eq!(title_action(&buf, 4), Some(Action::Title("Blen".to_string())));
    assert_eq!(title_action(&buf, 11), Some(Action::Title("Blender 4.0".to_string())));
}

#[test]
fn an_empty_or_unreadable_title_gives_no_event() {
    let buf = [0u8; 16];
    assert_eq!(title_action(&buf, 0), None);
    assert_eq!(title_action(&buf, -1), None);
    assert_eq!(title_action(&buf, i32::MIN), None);
    assert_eq!(title_action(&[], 0), None);
}

#[test]
fn bytes_that_are_not_utf8_are_replaced() {
    let buf = *b"Caf\xe9 Paint";
    assert_eq!(title_action(&buf, 10), Some(Action::Title("Caf\u{fffd} Paint".to_string())));
}
