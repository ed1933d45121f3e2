use newsboy::component::pubsub::{
    init_config, on_config_event, on_event, on_key, set_project_id, Command, ConfigEvent,
    ConnectionStatus, Field, FieldEvent, Pubsub, PubsubConfig, PubsubEvent, PubsubStatus, Reaction,
};
use newsboy::component::reusable::choices::{ChoicesEvent, ChoicesEventType};
use newsboy::component::reusable::text_field::{TextFieldEvent, TextFieldEventType};
use newsboy::component::topics::{TopicInfo, TopicsEvent};
use newsboy::input::{InputHandled, KeyCode, KeyEvent};

fn ready_config() -> PubsubConfig {
    let mut config = PubsubConfig::default();
    init_config(&mut config);
    config
}

fn ready() -> Pubsub {
    let mut state = Pubsub::default();
    state.init();
    state
}

fn text_event(name: &str, event_type: TextFieldEventType) -> ConfigEvent {
    ConfigEvent::ConfigFieldEvent(FieldEvent::TextFieldEvent(TextFieldEvent::new(
        name.to_string(),
        event_type,
    )))
}

fn choices_event(name: &str, event_type: ChoicesEventType) -> ConfigEvent {
    ConfigEvent::ConfigFieldEvent(FieldEvent::ChoicesEvent(ChoicesEvent::new(
        name.to_string(),
        event_type,
    )))
}

fn info(state: &Pubsub) -> Option<&str> {
    state.status().info.as_deref()
}

#[test]
fn default_status_is_disconnected() {
    let status = PubsubStatus::default();
    assert_eq!(status.connection, ConnectionStatus::Disconnected);
    assert_eq!(status.topics, 0);
    assert!(status.info.is_none());
}

#[test]
fn default_config_has_the_four_fields_without_values() {
    let config = PubsubConfig::default();
    assert_eq!(config.len(), 4);
    let expected = [
        ("project_id", "Project ID"),
        ("host", "Host"),
        ("port", "Port"),
        ("emulator", "Emulator"),
    ];
    for (i, (name, label)) in expected.into_iter().enumerate() {
        let field = config.field_at(i);
        assert_eq!(field.name(), name);
        assert_eq!(field.label(), label);
        assert_eq!(field.value(), "");
        assert!(!field.is_editing());
        assert_eq!(config.position(name), Some(i));
        assert_eq!(matches!(field, Field::Choices(_)), name == "emulator");
    }
    assert!(config.focused().is_none());
    assert!(!config.contains("missing"));
    let choices = config.field_at(3).as_choices().expect("the emulator field has choices");
    let pairs: Vec<(&str, &str)> =
        choices.iter().map(|c| (c.label.as_str(), c.value.as_str())).collect();
    assert_eq!(pairs, vec![("Yes", "true"), ("No", "false")]);
    assert!(config.field_at(0).as_choices().is_none());
    assert_eq!(config.field_at(0).as_text().map(|s| s.as_str()), Some(""));
    assert!(config.field_at(3).as_text().is_none());
}

#[test]
fn init_config_gives_the_first_values() {
    let config = ready_config();
    assert_eq!(config.get("project_id"), "");
    assert_eq!(config.get("host"), "localhost");
    assert_eq!(config.get("port"), "8065");
    assert_eq!(config.get("emulator"), "false");
    let emulator = config.get_choices_field("emulator").expect("a choices field");
    assert_eq!(emulator.chosen_idx(), Some(1));
    assert_eq!(emulator.get_selected_label(), "No");
    assert!(config.get_text_field("emulator").is_none());
    assert!(config.get_text_field("host").is_some());
    assert!(config.get_choices_field("host").is_none());
    assert!(config.get_text_field("missing").is_none());
}

#[test]
fn set_on_a_choices_field_chooses_by_value() {
    let mut config = ready_config();
    config.set("emulator", "true".to_string());
    assert_eq!(config.get("emulator"), "true");
    config.set("emulator", "perhaps".to_string());
    assert_eq!(config.get("emulator"), "");
    config.set("host", "example.org".to_string());
    assert_eq!(config.get("host"), "example.org");
    assert_eq!(config.get("port"), "8065");
}

#[test]
fn a_changed_project_identifier_asks_for_a_change_of_project() {
    let mut config = ready_config();
    config.set("project_id", "demo".to_string());
    match on_config_event(&mut config, text_event("project_id", TextFieldEventType::ValueChanged))
    {
        Some(PubsubEvent::ChangeProjectId(id)) => assert_eq!(id, "demo"),
        _ => panic!("the project is to be changed"),
    }
    assert!(on_config_event(&mut config, text_event("host", TextFieldEventType::ValueChanged))
        .is_none());
    assert!(on_config_event(
        &mut config,
        choices_event("emulator", ChoicesEventType::ValueChanged)
    )
    .is_none());
}

#[test]
fn editing_a_text_setting_through_events() {
    let mut config = ready_config();
    assert!(on_config_event(&mut config, text_event("port", TextFieldEventType::StartEditing))
        .is_none());
    assert!(on_config_event(&mut config, ConfigEvent::Focus(Some("port".to_string()))).is_none());
    assert!(config.is_editing());
    on_config_event(&mut config, text_event("port", TextFieldEventType::InputChar('1')));
    match on_config_event(&mut config, text_event("port", TextFieldEventType::DoneEditing(true))) {
        Some(PubsubEvent::Config(ConfigEvent::ConfigFieldEvent(FieldEvent::TextFieldEvent(e)))) => {
            assert_eq!(e.name, "port");
            assert_eq!(e.event_type, TextFieldEventType::ValueChanged);
        }
        _ => panic!("the commit is reported"),
    }
    assert_eq!(config.get("port"), "80651");
    assert!(!config.is_editing());
}

#[test]
fn choosing_the_emulator_through_events() {
    let mut config = ready_config();
    on_config_event(&mut config, choices_event("emulator", ChoicesEventType::StartEditing));
    on_config_event(
        &mut config,
        choices_event("emulator", ChoicesEventType::SetChosenIndex(Some(0))),
    );
    match on_config_event(
        &mut config,
        choices_event("emulator", ChoicesEventType::DoneEditing(true)),
    ) {
        Some(PubsubEvent::Config(ConfigEvent::ConfigFieldEvent(FieldEvent::ChoicesEvent(e)))) => {
            assert_eq!(e.name, "emulator");
            assert_eq!(e.event_type, ChoicesEventType::ValueChanged);
        }
        _ => panic!("the choice is reported"),
    }
    assert_eq!(config.get("emulator"), "true");
}

#[test]
fn keys_of_the_settings() {
    let mut config = ready_config();
    let focus_asked = |config: &PubsubConfig, code| match on_key(config, KeyEvent::plain(code)) {
        InputHandled::Handled(Some(ConfigEvent::Focus(name))) => Some(name),
        InputHandled::Handled(_) => panic!("a focus request was expected"),
        InputHandled::NotHandled => None,
    };
    assert_eq!(focus_asked(&config, KeyCode::Esc), None);
    assert_eq!(focus_asked(&config, KeyCode::Down), Some(Some("project_id".to_string())));
    on_config_event(&mut config, ConfigEvent::Focus(Some("project_id".to_string())));
    assert_eq!(focus_asked(&config, KeyCode::Up), Some(Some("emulator".to_string())));
    assert_eq!(focus_asked(&config, KeyCode::Down), Some(Some("host".to_string())));
    assert_eq!(focus_asked(&config, KeyCode::Esc), Some(None));
    on_config_event(&mut config, ConfigEvent::Focus(Some("emulator".to_string())));
    assert_eq!(focus_asked(&config, KeyCode::Down), Some(Some("project_id".to_string())));
    match on_key(&config, KeyEvent::plain(KeyCode::Char(' '))) {
        InputHandled::Handled(Some(ConfigEvent::ConfigFieldEvent(FieldEvent::ChoicesEvent(
            e,
        )))) => {
            assert_eq!(e.name, "emulator");
            assert_eq!(e.event_type, ChoicesEventType::StartEditing);
        }
        _ => panic!("the space bar opens the list of the focused choices field"),
    }
    on_config_event(&mut config, ConfigEvent::Focus(Some("host".to_string())));
    match on_key(&config, KeyEvent::plain(KeyCode::Char(' '))) {
        InputHandled::Handled(Some(ConfigEvent::ConfigFieldEvent(FieldEvent::TextFieldEvent(
            e,
        )))) => {
            assert_eq!(e.name, "host");
            assert_eq!(e.event_type, TextFieldEventType::StartEditing);
        }
        _ => panic!("the space bar starts editing the focused text field"),
    }
    assert!(matches!(
        on_key(&config, KeyEvent::plain(KeyCode::Char('x'))),
        InputHandled::NotHandled
    ));
}

#[test]
fn a_new_link_has_no_project_and_no_connection() {
    let state = ready();
    assert!(state.project_id().is_none());
    assert!(!state.client_ready());
    assert_eq!(state.status().connection, ConnectionStatus::Disconnected);
    assert_eq!(state.status().topics, 0);
    assert_eq!(info(&state), None);
    assert!(state.topics().visible().is_empty());
    assert_eq!(state.config().get("host"), "localhost");
}

#[test]
fn connect_without_a_project_tells_the_user() {
    let mut state = ready();
    assert!(matches!(on_event(&mut state, PubsubEvent::Connect), Reaction::Nothing));
    assert_eq!(info(&state), Some("Project ID is empty"));
    assert_eq!(state.status().connection, ConnectionStatus::Disconnected);
}

#[test]
fn changing_the_project_asks_for_a_connection() {
    let mut state = ready();
    match on_event(&mut state, set_project_id("demo".to_string())) {
        Reaction::FollowUp(PubsubEvent::Connect) => {}
        _ => panic!("a connection is asked for"),
    }
    assert_eq!(state.project_id().as_deref(), Some("demo"));
    assert_eq!(state.status().connection, ConnectionStatus::Connecting);
    match on_event(&mut state, PubsubEvent::Connect) {
        Reaction::Run(Command::Connect(id)) => assert_eq!(id, "demo"),
        _ => panic!("the connection is to be made"),
    }
    assert_eq!(state.status().connection, ConnectionStatus::Connecting);
    assert!(matches!(on_event(&mut state, PubsubEvent::Connected), Reaction::Nothing));
    assert!(state.client_ready());
    assert_eq!(state.status().connection, ConnectionStatus::Connected);
    assert_eq!(info(&state), Some("Connected to Pub/Sub"));
}

#[test]
fn changing_to_the_project_in_use_changes_nothing_else() {
    let mut state = ready();
    on_event(&mut state, set_project_id("demo".to_string()));
    on_event(&mut state, PubsubEvent::Connected);
    assert!(matches!(
        on_event(&mut state, set_project_id("demo".to_string())),
        Reaction::Nothing
    ));
    assert_eq!(info(&state), Some("Already connected to this project"));
    assert_eq!(state.status().connection, ConnectionStatus::Connected);
    assert!(state.client_ready());
}

#[test]
fn a_failed_connection_is_told_with_its_reason() {
    let mut state = ready();
    on_event(&mut state, set_project_id("demo".to_string()));
    on_event(&mut state, PubsubEvent::Connected);
    let out = on_event(&mut state, PubsubEvent::ConnectFailed("no route to host".to_string()));
    assert!(matches!(out, Reaction::Nothing));
    assert!(!state.client_ready());
    assert_eq!(state.status().connection, ConnectionStatus::Disconnected);
    assert_eq!(info(&state), Some("Failed to connect: no route to host"));
    assert_eq!(state.project_id().as_deref(), Some("demo"));
}

#[test]
fn topics_are_fetched_only_over_a_connection() {
    let mut state = ready();
    assert!(matches!(on_event(&mut state, PubsubEvent::GetTopics), Reaction::Nothing));
    assert_eq!(info(&state), Some("Not connected to Pub/Sub"));
    on_event(&mut state, PubsubEvent::Connected);
    assert!(matches!(
        on_event(&mut state, PubsubEvent::GetTopics),
        Reaction::Run(Command::FetchTopics)
    ));
    assert_eq!(info(&state), Some("Connected to Pub/Sub"));
}

#[test]
fn reported_topics_fill_the_list() {
    let mut state = ready();
    on_event(&mut state, PubsubEvent::Connected);
    let list = vec![
        TopicInfo { name: "orders".to_string() },
        TopicInfo { name: "Billing".to_string() },
    ];
    assert!(matches!(on_event(&mut state, PubsubEvent::GotTopics(list)), Reaction::Nothing));
    assert_eq!(state.status().topics, 2);
    let shown: Vec<&str> = state.topics().visible().iter().map(|t| t.name.as_str()).collect();
    assert_eq!(shown, vec!["Billing", "orders"]);
    assert_eq!(state.status().connection, ConnectionStatus::Connected);
}

#[test]
fn a_failed_fetch_is_told_and_keeps_the_stale_list() {
    let mut state = ready();
    on_event(&mut state, PubsubEvent::Connected);
    on_event(&mut state, PubsubEvent::GotTopics(vec![TopicInfo { name: "t".to_string() }]));
    let out = on_event(&mut state, PubsubEvent::GetTopicsFailed("deadline exceeded".to_string()));
    assert!(matches!(out, Reaction::Nothing));
    assert_eq!(state.status().connection, ConnectionStatus::Disconnected);
    assert_eq!(info(&state), Some("Failed to get topics: deadline exceeded"));
    assert_eq!(state.topics().visible().len(), 1);
    assert_eq!(state.status().topics, 1);
    assert!(state.client_ready());
}

#[test]
fn a_refresh_of_the_list_asks_for_the_topics() {
    let mut state = ready();
    assert!(matches!(
        on_event(&mut state, PubsubEvent::Topics(TopicsEvent::Refresh)),
        Reaction::FollowUp(PubsubEvent::GetTopics)
    ));
    assert!(matches!(
        on_event(&mut state, PubsubEvent::Topics(TopicsEvent::Select(0))),
        Reaction::Nothing
    ));
}

#[test]
fn config_events_reach_the_settings() {
    let mut state = ready();
    on_event(&mut state, PubsubEvent::Config(ConfigEvent::Focus(Some("port".to_string()))));
    assert_eq!(state.config().focused().as_deref(), Some("port"));
    on_event(
        &mut state,
        PubsubEvent::Config(text_event("project_id", TextFieldEventType::StartEditing)),
    );
    on_event(
        &mut state,
        PubsubEvent::Config(text_event("project_id", TextFieldEventType::InputChar('p'))),
    );
    let out = on_event(
        &mut state,
        PubsubEvent::Config(text_event("project_id", TextFieldEventType::DoneEditing(true))),
    );
    let reported = match out {
        Reaction::FollowUp(event) => event,
        _ => panic!("the commit is reported"),
    };
    match on_event(&mut state, reported) {
        Reaction::FollowUp(PubsubEvent::ChangeProjectId(id)) => assert_eq!(id, "p"),
        _ => panic!("the project is to be changed"),
    }
}
