use newsboy::component::reusable::text_field::{TextFieldEvent, TextFieldEventType};
use newsboy::component::setup::{
    init, on_arrive, on_event, on_key, on_leave, FocusState, Setup, SetupEvent,
};
use newsboy::input::{InputHandled, KeyCode, KeyEvent};

fn ready() -> Setup {
    let mut setup = Setup::default();
    init(&mut setup);
    setup
}

fn focus_of(setup: &Setup) -> Option<String> {
    match setup.focus_state() {
        FocusState::Global => None,
        FocusState::Field(name) => Some(name),
    }
}

fn focus_asked(setup: &Setup, code: KeyCode) -> Option<Option<String>> {
    match on_key(setup, KeyEvent::plain(code)) {
        InputHandled::Handled(Some(SetupEvent::Focus(name))) => Some(name),
        InputHandled::Handled(_) => panic!("a focus request was expected"),
        InputHandled::NotHandled => None,
    }
}

#[test]
fn scenario_focus_and_unfocus() {
    let mut setup = ready();
    assert!(matches!(setup.focus_state(), FocusState::Global));
    assert!(setup.contains("project_id"));
    setup.focus("project_id");
    assert_eq!(focus_of(&setup), Some("project_id".to_string()));
    setup.unfocus();
    assert!(matches!(setup.focus_state(), FocusState::Global));
    // a field that is not there cannot be focused: the caller has to ask first
    assert!(!setup.contains("missing"));
    assert_eq!(setup.position("missing"), None);
}

#[test]
fn a_new_registry_is_empty() {
    let setup = Setup::default();
    assert_eq!(setup.len(), 0);
    assert!(setup.focused().is_none());
    assert!(!setup.contains("project_id"));
}

#[test]
fn init_sets_up_the_three_fields_in_order() {
    let setup = ready();
    assert_eq!(setup.len(), 3);
    assert_eq!(Setup::get_field_names(), vec!["project_id", "host", "port"]);
    for (i, (name, label, value)) in
        [("project_id", "Project ID", ""), ("host", "Host", "localhost"), ("port", "Port", "8065")]
            .into_iter()
            .enumerate()
    {
        let field = setup.field_at(i);
        assert_eq!(field.name(), name);
        assert_eq!(field.label(), label);
        assert_eq!(field.value(), value);
        assert!(!field.is_editing());
        assert_eq!(setup.position(name), Some(i));
        assert_eq!(setup.get(name), value);
    }
    assert!(setup.focused().is_none());
}

#[test]
fn init_again_resets_the_fields_and_keeps_the_focus() {
    let mut setup = ready();
    setup.set("host", "example.org".to_string());
    setup.focus("port");
    init(&mut setup);
    assert_eq!(setup.len(), 3);
    assert_eq!(setup.get("host"), "localhost");
    assert_eq!(focus_of(&setup), Some("port".to_string()));
}

#[test]
fn add_puts_a_field_behind_the_others() {
    let mut setup = ready();
    assert!(Setup::is_field_name("emulator"));
    assert!(!setup.contains("emulator"));
    setup.add("emulator", "Emulator", "true".to_string());
    assert_eq!(setup.len(), 4);
    assert_eq!(setup.position("emulator"), Some(3));
    assert_eq!(setup.get("emulator"), "true");
    assert_eq!(setup.field("emulator").label(), "Emulator");
}

#[test]
fn names_that_no_field_may_bear() {
    assert!(!Setup::is_field_name(""));
    assert!(!Setup::is_field_name("global"));
    assert!(Setup::is_field_name("Global"));
    assert!(Setup::is_field_name("globals"));
    assert!(Setup::is_field_name("port"));
    assert_eq!(FocusState::Global.scope_name(), "global");
    assert_eq!(FocusState::Field("host".to_string()).scope_name(), "host");
}

#[test]
fn set_changes_one_value_only() {
    let mut setup = ready();
    setup.set("port", "9000".to_string());
    assert_eq!(setup.get("port"), "9000");
    assert_eq!(setup.get("host"), "localhost");
    assert_eq!(setup.get("project_id"), "");
    on_event(&mut setup, SetupEvent::ChangeSetupValue("host".to_string(), "h".to_string()));
    assert_eq!(setup.get("host"), "h");
    assert_eq!(setup.get("port"), "9000");
}

#[test]
fn arrive_focuses_the_project_and_leave_clears_the_focus() {
    let mut setup = ready();
    on_arrive(&mut setup);
    assert_eq!(focus_of(&setup), Some("project_id".to_string()));
    on_leave(&mut setup);
    assert_eq!(focus_of(&setup), None);
}

#[test]
fn arrows_move_the_focus_round_the_fields() {
    let mut setup = ready();
    assert_eq!(focus_asked(&setup, KeyCode::Down), Some(Some("project_id".to_string())));
    assert_eq!(focus_asked(&setup, KeyCode::Up), Some(Some("project_id".to_string())));
    setup.focus("project_id");
    assert_eq!(focus_asked(&setup, KeyCode::Down), Some(Some("host".to_string())));
    assert_eq!(focus_asked(&setup, KeyCode::Up), Some(Some("port".to_string())));
    setup.focus("port");
    assert_eq!(focus_asked(&setup, KeyCode::Down), Some(Some("project_id".to_string())));
    assert_eq!(focus_asked(&setup, KeyCode::Up), Some(Some("host".to_string())));
}

#[test]
fn arrows_over_an_empty_registry_are_not_handled() {
    let setup = Setup::default();
    assert_eq!(focus_asked(&setup, KeyCode::Down), None);
    assert_eq!(focus_asked(&setup, KeyCode::Up), None);
}

#[test]
fn escape_unfocuses_and_is_not_handled_without_focus() {
    let mut setup = ready();
    assert_eq!(focus_asked(&setup, KeyCode::Esc), None);
    setup.focus("host");
    assert_eq!(focus_asked(&setup, KeyCode::Esc), Some(None));
}

#[test]
fn the_focused_field_gets_the_key_first() {
    let mut setup = ready();
    setup.focus("port");
    match on_key(&setup, KeyEvent::plain(KeyCode::Char(' '))) {
        InputHandled::Handled(Some(SetupEvent::SetupFieldEvent(e))) => {
            assert_eq!(e.name, "port");
            assert_eq!(e.event_type, TextFieldEventType::StartEditing);
        }
        _ => panic!("the space bar starts editing the focused field"),
    }
    on_event(
        &mut setup,
        SetupEvent::SetupFieldEvent(TextFieldEvent::new(
            "port".to_string(),
            TextFieldEventType::StartEditing,
        )),
    );
    assert!(setup.is_editing());
    // while the field is edited, Escape cancels the edit and does not unfocus
    match on_key(&setup, KeyEvent::plain(KeyCode::Esc)) {
        InputHandled::Handled(Some(SetupEvent::SetupFieldEvent(e))) => {
            assert_eq!(e.event_type, TextFieldEventType::DoneEditing(false));
        }
        _ => panic!("Escape goes to the field being edited"),
    }
    // the Delete key at the end of the draft is taken by the field and asks for nothing
    assert!(matches!(
        on_key(&setup, KeyEvent::plain(KeyCode::Delete)),
        InputHandled::Handled(None)
    ));
    // the field declines the arrows, so the screen moves the focus
    assert_eq!(focus_asked(&setup, KeyCode::Down), Some(Some("project_id".to_string())));
}

#[test]
fn without_focus_the_space_bar_is_not_handled() {
    let setup = ready();
    assert!(matches!(
        on_key(&setup, KeyEvent::plain(KeyCode::Char(' '))),
        InputHandled::NotHandled
    ));
    assert!(!setup.is_editing());
}

#[test]
fn field_events_go_to_the_named_field_and_commits_are_reported() {
    let mut setup = ready();
    let send = |setup: &mut Setup, event_type| {
        on_event(
            setup,
            SetupEvent::SetupFieldEvent(TextFieldEvent::new("host".to_string(), event_type)),
        )
    };
    assert!(send(&mut setup, TextFieldEventType::StartEditing).is_none());
    assert!(send(&mut setup, TextFieldEventType::InputChar('!')).is_none());
    assert_eq!(setup.field("host").input(), "localhost!");
    assert_eq!(setup.field("port").input(), "");
    match send(&mut setup, TextFieldEventType::DoneEditing(true)) {
        Some(SetupEvent::SetupFieldEvent(e)) => {
            assert_eq!(e.name, "host");
            assert_eq!(e.event_type, TextFieldEventType::ValueChanged);
        }
        _ => panic!("the commit is reported"),
    }
    assert_eq!(setup.get("host"), "localhost!");
    assert!(send(&mut setup, TextFieldEventType::ValueChanged).is_none());
}

#[test]
fn focus_event_sets_the_focus() {
    let mut setup = ready();
    assert!(on_event(&mut setup, SetupEvent::Focus(Some("host".to_string()))).is_none());
    assert_eq!(focus_of(&setup), Some("host".to_string()));
    assert!(on_event(&mut setup, SetupEvent::Focus(None)).is_none());
    assert_eq!(focus_of(&setup), None);
}
