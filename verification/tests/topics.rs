use newsboy::component::topics::{
    clamped, copy_topics, moved, on_event, on_key, select_matching, sort_by_name,
    SelectionDirection, TopicInfo, Topics, TopicsEvent,
};
use newsboy::input::{InputHandled, KeyCode, KeyEvent, KeyModifiers};
use newsboy::text::chars_of;

fn topics_of(names: &[&str]) -> Vec<TopicInfo> {
    names.iter().map(|n| TopicInfo { name: n.to_string() }).collect()
}

fn names_of(items: &Vec<TopicInfo>) -> Vec<String> {
    items.iter().map(|t| t.name.clone()).collect()
}

fn list_of(names: &[&str]) -> Topics {
    let mut list = Topics::new();
    list.set_topics(topics_of(names));
    list
}

fn shown(list: &Topics) -> Vec<String> {
    names_of(list.visible())
}

#[test]
fn scenario_filter_matches_whatever_the_case() {
    let mut list = list_of(&["orders", "Billing", "audit-log"]);
    on_event(&mut list, TopicsEvent::Filter("or".to_string()));
    assert!(list.filter_active());
    assert_eq!(list.filter_text(), "or");
    assert_eq!(shown(&list), vec!["orders"]);
    assert_eq!(list.selected(), None);
}

#[test]
fn filter_text_in_upper_case_matches_lower_case_names() {
    let mut list = list_of(&["orders", "Billing", "audit-log", "Border"]);
    list.toggle_filter(true);
    list.set_filter_text("OR".to_string());
    assert_eq!(shown(&list), vec!["Border", "orders"]);
    list.set_filter_text("bILL".to_string());
    assert_eq!(shown(&list), vec!["Billing"]);
    list.set_filter_text("-".to_string());
    assert_eq!(shown(&list), vec!["audit-log"]);
    list.set_filter_text("nothing".to_string());
    assert_eq!(shown(&list), Vec::<String>::new());
}

#[test]
fn a_new_list_shows_nothing() {
    let list = Topics::new();
    assert!(list.all().is_empty());
    assert!(list.visible().is_empty());
    assert_eq!(list.selected(), None);
    assert!(!list.filter_active());
    assert_eq!(list.filter_text(), "");
}

#[test]
fn without_filter_the_source_is_shown_sorted_by_scalar_value() {
    let list = list_of(&["orders", "Billing", "audit-log"]);
    assert_eq!(shown(&list), vec!["Billing", "audit-log", "orders"]);
    assert_eq!(names_of(list.all()), vec!["orders", "Billing", "audit-log"]);
}

#[test]
fn an_empty_filter_text_shows_everything_though_filtering_is_on() {
    let mut list = list_of(&["b", "a", "c"]);
    list.toggle_filter(true);
    assert_eq!(shown(&list), vec!["a", "b", "c"]);
    assert!(list.filter_active());
}

#[test]
fn a_filter_text_is_not_applied_while_filtering_is_off() {
    let mut list = list_of(&["b", "a", "c"]);
    list.set_filter_text("a".to_string());
    assert_eq!(shown(&list), vec!["a", "b", "c"]);
    list.toggle_filter(true);
    assert_eq!(shown(&list), vec!["a"]);
}

#[test]
fn clearing_the_filter_shows_the_sorted_source_again() {
    let source = ["orders", "Billing", "audit-log", "orders-eu"];
    let sorted = vec!["Billing", "audit-log", "orders", "orders-eu"];
    for text in ["or", "x", "BILL", "-"] {
        let mut list = list_of(&source);
        list.toggle_filter(true);
        list.set_filter_text(text.to_string());
        list.set_filter_text(String::new());
        assert_eq!(shown(&list), sorted);

        let mut list = list_of(&source);
        list.toggle_filter(true);
        list.set_filter_text(text.to_string());
        list.toggle_filter(false);
        assert_eq!(shown(&list), sorted);
        assert_eq!(list.filter_text(), "");
        assert!(!list.filter_active());
    }
}

#[test]
fn turning_the_filter_off_forgets_the_text() {
    let mut list = list_of(&["a", "b"]);
    on_event(&mut list, TopicsEvent::Filter("b".to_string()));
    on_event(&mut list, TopicsEvent::ClearFilter);
    assert_eq!(list.filter_text(), "");
    list.toggle_filter(true);
    assert_eq!(shown(&list), vec!["a", "b"]);
}

#[test]
fn set_topics_resets_the_selection_and_keeps_the_filter() {
    let mut list = list_of(&["a", "b", "c"]);
    list.select(2);
    list.toggle_filter(true);
    list.set_filter_text("b".to_string());
    list.set_topics(topics_of(&["bb", "ab", "c"]));
    assert_eq!(list.selected(), None);
    assert_eq!(shown(&list), vec!["ab", "bb"]);
}

#[test]
fn selection_is_clamped_when_the_list_shrinks() {
    let mut list = list_of(&["a1", "a2", "b1", "b2"]);
    list.select(3);
    assert_eq!(list.selected(), Some(3));
    list.toggle_filter(true);
    list.set_filter_text("a".to_string());
    assert_eq!(shown(&list), vec!["a1", "a2"]);
    assert_eq!(list.selected(), Some(1));
    list.set_filter_text("zzz".to_string());
    assert_eq!(list.selected(), None);
    list.set_filter_text(String::new());
    assert_eq!(list.selected(), None);
}

#[test]
fn a_selection_within_the_list_stays_when_the_filter_changes() {
    let mut list = list_of(&["a1", "a2", "b1", "b2"]);
    list.select(0);
    list.toggle_filter(true);
    list.set_filter_text("a".to_string());
    assert_eq!(list.selected(), Some(0));
}

#[test]
fn select_past_the_end_goes_to_the_last_entry() {
    let mut list = list_of(&["a", "b", "c"]);
    on_event(&mut list, TopicsEvent::Select(7));
    assert_eq!(list.selected(), Some(2));
    on_event(&mut list, TopicsEvent::Select(1));
    assert_eq!(list.selected(), Some(1));
    on_event(&mut list, TopicsEvent::Deselect);
    assert_eq!(list.selected(), None);
    let mut empty = Topics::new();
    on_event(&mut empty, TopicsEvent::Select(0));
    assert_eq!(empty.selected(), None);
}

#[test]
fn move_selection_wraps_at_both_ends() {
    let mut list = list_of(&["a", "b", "c"]);
    list.move_selection(SelectionDirection::Down);
    assert_eq!(list.selected(), Some(0));
    list.move_selection(SelectionDirection::Down);
    list.move_selection(SelectionDirection::Down);
    assert_eq!(list.selected(), Some(2));
    list.move_selection(SelectionDirection::Down);
    assert_eq!(list.selected(), Some(0));
    list.move_selection(SelectionDirection::Up);
    assert_eq!(list.selected(), Some(2));
    list.move_selection(SelectionDirection::Up);
    assert_eq!(list.selected(), Some(1));
    list.deselect();
    list.move_selection(SelectionDirection::Up);
    assert_eq!(list.selected(), Some(2));
}

#[test]
fn move_selection_over_nothing_selects_nothing() {
    let mut list = Topics::new();
    for _ in 0..5 {
        list.move_selection(SelectionDirection::Down);
        assert_eq!(list.selected(), None);
        list.move_selection(SelectionDirection::Up);
        assert_eq!(list.selected(), None);
    }
    let mut filtered = list_of(&["a", "b"]);
    filtered.toggle_filter(true);
    filtered.set_filter_text("x".to_string());
    filtered.move_selection(SelectionDirection::Down);
    assert_eq!(filtered.selected(), None);
}

#[test]
fn moved_and_clamped_on_plain_values() {
    assert_eq!(clamped(Some(4), 3), Some(2));
    assert_eq!(clamped(Some(2), 3), Some(2));
    assert_eq!(clamped(Some(0), 0), None);
    assert_eq!(clamped(None, 3), None);
    assert_eq!(moved(None, 0, SelectionDirection::Down), None);
    assert_eq!(moved(Some(0), 0, SelectionDirection::Up), None);
    assert_eq!(moved(None, 4, SelectionDirection::Down), Some(0));
    assert_eq!(moved(None, 4, SelectionDirection::Up), Some(3));
    assert_eq!(moved(Some(3), 4, SelectionDirection::Down), Some(0));
    assert_eq!(moved(Some(0), 4, SelectionDirection::Up), Some(3));
    assert_eq!(moved(Some(1), 4, SelectionDirection::Down), Some(2));
    assert_eq!(moved(Some(9), 4, SelectionDirection::Up), Some(2));
    assert_eq!(moved(Some(usize::MAX), 1, SelectionDirection::Down), Some(0));
}

#[test]
fn sort_by_name_sorts_and_keeps_every_topic() {
    let sorted = sort_by_name(&topics_of(&["b", "a", "B", "", "ab", "a", "é"]));
    assert_eq!(names_of(&sorted), vec!["", "B", "a", "a", "ab", "b", "é"]);
    assert!(sort_by_name(&Vec::new()).is_empty());
}

#[test]
fn select_matching_takes_folded_names_as_given() {
    let source = topics_of(&["One", "Two", "Three"]);
    let folded = vec![chars_of("one"), chars_of("two"), chars_of("three")];
    let picked = select_matching(&source, &folded, &chars_of("t"));
    assert_eq!(names_of(&picked), vec!["Two", "Three"]);
    let picked = select_matching(&source, &folded, &chars_of("T"));
    assert!(picked.is_empty());
    let picked = select_matching(&source, &folded, &chars_of(""));
    assert_eq!(names_of(&picked), vec!["One", "Two", "Three"]);
    let short = vec![chars_of("one")];
    assert!(select_matching(&source, &short, &chars_of("o")).is_empty());
}

#[test]
fn copy_topics_copies_in_order() {
    let source = topics_of(&["x", "y"]);
    assert_eq!(names_of(&copy_topics(&source)), vec!["x", "y"]);
}

fn answer(list: &Topics, key: KeyEvent) -> Option<Option<TopicsEvent>> {
    match on_key(list, key) {
        InputHandled::Handled(event) => Some(event),
        InputHandled::NotHandled => None,
    }
}

#[test]
fn keys_of_the_list_while_filtering_is_off() {
    let mut list = list_of(&["a", "b", "c"]);
    let plain = |l: &Topics, code| answer(l, KeyEvent::plain(code));
    assert!(matches!(plain(&list, KeyCode::Down), Some(Some(TopicsEvent::Select(0)))));
    assert!(matches!(plain(&list, KeyCode::Char('j')), Some(Some(TopicsEvent::Select(0)))));
    assert!(matches!(plain(&list, KeyCode::Up), Some(Some(TopicsEvent::Select(2)))));
    assert!(matches!(plain(&list, KeyCode::Char('k')), Some(Some(TopicsEvent::Select(2)))));
    list.select(2);
    assert!(matches!(plain(&list, KeyCode::Down), Some(Some(TopicsEvent::Select(0)))));
    assert!(matches!(plain(&list, KeyCode::Up), Some(Some(TopicsEvent::Select(1)))));
    assert!(matches!(plain(&list, KeyCode::Char('r')), Some(Some(TopicsEvent::Refresh))));
    match plain(&list, KeyCode::Char('/')) {
        Some(Some(TopicsEvent::Filter(text))) => assert_eq!(text, ""),
        _ => panic!("the slash turns filtering on"),
    }
    assert!(plain(&list, KeyCode::Esc).is_none());
    assert!(plain(&list, KeyCode::Backspace).is_none());
    assert!(plain(&list, KeyCode::Char('x')).is_none());
    assert!(plain(&list, KeyCode::Enter).is_none());
    assert!(plain(&list, KeyCode::Tab).is_none());
    let ctrl = KeyModifiers { shift: false, control: true, alt: false, other: false };
    assert!(answer(&list, KeyEvent::new(KeyCode::Char('j'), ctrl)).is_none());
}

#[test]
fn keys_of_the_list_while_filtering_is_on() {
    let mut list = list_of(&["a", "b", "c"]);
    on_event(&mut list, TopicsEvent::Filter("é".to_string()));
    let plain = |l: &Topics, code| answer(l, KeyEvent::plain(code));
    match plain(&list, KeyCode::Char('j')) {
        Some(Some(TopicsEvent::Filter(text))) => assert_eq!(text, "éj"),
        _ => panic!("a character goes into the filter text"),
    }
    match plain(&list, KeyCode::Backspace) {
        Some(Some(TopicsEvent::Filter(text))) => assert_eq!(text, ""),
        _ => panic!("backspace shortens the filter text"),
    }
    assert!(matches!(plain(&list, KeyCode::Esc), Some(Some(TopicsEvent::ClearFilter))));
    // nothing is shown, so the arrows are taken and ask for nothing
    assert!(matches!(plain(&list, KeyCode::Down), Some(None)));
    list.set_filter_text(String::new());
    assert!(matches!(plain(&list, KeyCode::Backspace), Some(None)));
    assert!(matches!(plain(&list, KeyCode::Down), Some(Some(TopicsEvent::Select(0)))));
    assert!(plain(&list, KeyCode::Enter).is_none());
}

#[test]
fn arrows_over_an_empty_list_are_taken_and_ask_for_nothing() {
    let list = Topics::new();
    assert!(matches!(answer(&list, KeyEvent::plain(KeyCode::Down)), Some(None)));
    assert!(matches!(answer(&list, KeyEvent::plain(KeyCode::Char('k'))), Some(None)));
}

#[test]
fn refresh_leaves_the_list_as_it_is() {
    let mut list = list_of(&["b", "a"]);
    list.select(1);
    on_event(&mut list, TopicsEvent::Refresh);
    assert_eq!(shown(&list), vec!["a", "b"]);
    assert_eq!(list.selected(), Some(1));
}
