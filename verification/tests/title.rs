use fuyao_core::interrupt::Outgoing;
use fuyao_core::message::OutputEvent;
use fuyao_core::title::{announce_title, maybe_spawn_title, placeholder_title, TitleGate};

#[test]
fn placeholder_title_takes_first_line() {
    assert_eq!(placeholder_title("第一行\n第二行", 80), "第一行");
}

#[test]
fn placeholder_title_truncates_with_ellipsis() {
    let long = "很".repeat(100);
    let title = placeholder_title(&long, 80);
    assert_eq!(title.chars().count(), 81);
    assert!(title.ends_with('…'));
}

#[test]
fn placeholder_title_keeps_short_content() {
    assert_eq!(placeholder_title("  简短问题 ", 80), "简短问题");
}

#[test]
fn placeholder_title_empty_for_blank_content() {
    assert_eq!(placeholder_title("   \n  ", 80), "");
}

#[test]
fn placeholder_title_at_the_edges() {
    assert_eq!(placeholder_title("abc", 3), "abc");
    assert_eq!(placeholder_title("abcd", 3), "abc…");
    assert_eq!(placeholder_title("a\r\nb", 3), "a");
    assert_eq!(placeholder_title("\u{3000}题\u{a0}", 3), "题");
    assert_eq!(placeholder_title("a \nb", 3), "a ");
    assert_eq!(placeholder_title("x", 0), "…");
}

#[test]
fn title_spawns_once_on_first_injection() {
    let mut gate = TitleGate::new();
    let plan = maybe_spawn_title(&mut gate, Some(1), Some("第一个问题".into()), 80, true);
    assert_eq!(plan.placeholder.as_deref(), Some("第一个问题"));
    assert_eq!(plan.generate_from.as_deref(), Some("第一个问题"));
    let plan = maybe_spawn_title(&mut gate, Some(1), Some("第二个问题".into()), 80, true);
    assert!(plan.placeholder.is_none());
    assert!(plan.generate_from.is_none());
}

#[test]
fn title_skipped_for_non_first_session() {
    let mut gate = TitleGate::new();
    let plan = maybe_spawn_title(&mut gate, Some(2), Some("第二问".into()), 80, true);
    assert!(plan.placeholder.is_none() && plan.generate_from.is_none());
    let plan = maybe_spawn_title(&mut gate, Some(1), Some("第二问".into()), 80, true);
    assert!(plan.placeholder.is_none() && plan.generate_from.is_none());
}

#[test]
fn title_needs_a_count_and_a_text() {
    let plan = maybe_spawn_title(&mut TitleGate::new(), None, Some("问".into()), 80, true);
    assert!(plan.placeholder.is_none() && plan.generate_from.is_none());
    let plan = maybe_spawn_title(&mut TitleGate::new(), Some(1), None, 80, true);
    assert!(plan.placeholder.is_none() && plan.generate_from.is_none());
}

#[test]
fn placeholder_does_not_depend_on_generation() {
    let plan = maybe_spawn_title(&mut TitleGate::new(), Some(1), Some("问".into()), 80, false);
    assert_eq!(plan.placeholder.as_deref(), Some("问"));
    assert!(plan.generate_from.is_none());
    let plan = maybe_spawn_title(&mut TitleGate::new(), Some(1), Some(" ".into()), 80, true);
    assert!(plan.placeholder.is_none());
    assert_eq!(plan.generate_from.as_deref(), Some(" "));
}

#[test]
fn only_stored_titles_are_announced() {
    let Some(Outgoing::Notice(OutputEvent::Title(m))) = announce_title("标题".into(), true) else {
        panic!("应广播 Title 事件");
    };
    assert_eq!(m.payload.title, "标题");
    assert!(announce_title("标题".into(), false).is_none());
}

#[test]
fn a_decided_title_needs_no_count() {
    let mut gate = TitleGate::new();
    assert!(gate.is_open());
    maybe_spawn_title(&mut gate, None, None, 20, true);
    assert!(!gate.is_open());
}
