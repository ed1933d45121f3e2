use newsboy::app::{init, App};
use newsboy::component::debug::{debug_log, DebugLogsEvent};
use newsboy::component::pubsub::{Command, ConnectionStatus, PubsubEvent, Reaction};
use newsboy::component::reusable::text_field::TextFieldEventType;
use newsboy::component::setup::SetupEvent;
use newsboy::component::topics::{TopicInfo, TopicsEvent};
use newsboy::component::pubsub::{ConfigEvent, FieldEvent};
use newsboy::component::reusable::choices::{ChoicesEvent, ChoicesEventType};
use newsboy::component::reusable::text_field::TextFieldEvent;
use newsboy::event::{offer, on_event, on_quit, on_tick, quit, step, AppEvent, EventQueue};
use newsboy::input::{on_key, KeyCode, KeyEvent, KeyModifiers};
use newsboy::route::{Route, RouteEvent};

fn ready() -> App {
    let mut app = App::new();
    init(&mut app);
    app
}

fn key(code: KeyCode) -> AppEvent {
    AppEvent::Input(KeyEvent::plain(code))
}

fn ctrl(c: char) -> KeyEvent {
    KeyEvent::new(
        KeyCode::Char(c),
        KeyModifiers { shift: false, control: true, alt: false, other: false },
    )
}

/// Handles everything that waits, and gathers the commands asked for.
fn drain(app: &mut App, queue: &mut EventQueue) -> Vec<Command> {
    let mut commands = Vec::new();
    let mut steps = 0;
    while !queue.is_empty() && !app.should_quit {
        if let Some(command) = step(app, queue) {
            commands.push(command);
        }
        steps += 1;
        assert!(steps < 1000, "the queue does not run dry");
    }
    commands
}

fn press(app: &mut App, codes: &[KeyCode]) {
    let mut queue = EventQueue::new();
    for code in codes {
        queue.push_back(key(*code));
    }
    drain(app, &mut queue);
}

#[test]
fn a_new_app_shows_the_setup_screen() {
    let app = ready();
    assert_eq!(app.route, Route::Setup);
    assert!(!app.should_quit);
    assert_eq!(app.ticks, 0);
    assert_eq!(app.setup.len(), 3);
    assert_eq!(app.setup.get("port"), "8065");
    assert_eq!(app.pubsub.config().get("emulator"), "false");
    assert!(!app.debug_logs.visible());
}

#[test]
fn override_keys_quit_whatever_is_focused() {
    let mut app = ready();
    press(&mut app, &[KeyCode::Down, KeyCode::Char(' ')]);
    assert!(app.setup.is_editing());
    for c in ['c', 'd'] {
        assert!(matches!(on_key(&app, ctrl(c)), Some(AppEvent::Quit)));
    }
    // the same letters without the control key go into the draft
    match on_key(&app, KeyEvent::plain(KeyCode::Char('c'))) {
        Some(AppEvent::Setup(SetupEvent::SetupFieldEvent(e))) => {
            assert_eq!(e.event_type, TextFieldEventType::InputChar('c'));
        }
        _ => panic!("a plain letter is typed into the field"),
    }
}

#[test]
fn q_quits_only_where_no_field_takes_it() {
    let mut app = ready();
    assert!(matches!(on_key(&app, KeyEvent::plain(KeyCode::Char('q'))), Some(AppEvent::Quit)));
    press(&mut app, &[KeyCode::Down, KeyCode::Char(' ')]);
    match on_key(&app, KeyEvent::plain(KeyCode::Char('q'))) {
        Some(AppEvent::Setup(SetupEvent::SetupFieldEvent(e))) => {
            assert_eq!(e.event_type, TextFieldEventType::InputChar('q'));
        }
        _ => panic!("the field being edited takes the letter"),
    }
}

#[test]
fn a_handled_key_without_event_does_not_fall_through() {
    let mut app = ready();
    press(&mut app, &[KeyCode::Down, KeyCode::Char(' ')]);
    // the Delete key at the end of the draft is handled and asks for nothing
    assert!(on_key(&app, KeyEvent::plain(KeyCode::Delete)).is_none());
    // on the topics screen with nothing shown, the arrows are handled and ask for nothing
    app.route = Route::Topics;
    assert!(on_key(&app, KeyEvent::plain(KeyCode::Down)).is_none());
}

#[test]
fn global_keys() {
    let app = ready();
    let plain = |code| on_key(&app, KeyEvent::plain(code));
    assert!(matches!(plain(KeyCode::Tab), Some(AppEvent::Route(RouteEvent::Next))));
    assert!(matches!(plain(KeyCode::BackTab), Some(AppEvent::Route(RouteEvent::Prev))));
    assert!(matches!(
        plain(KeyCode::Char('1')),
        Some(AppEvent::Route(RouteEvent::Select(Route::Setup)))
    ));
    assert!(matches!(
        plain(KeyCode::Char('2')),
        Some(AppEvent::Route(RouteEvent::Select(Route::Topics)))
    ));
    assert!(plain(KeyCode::Char('3')).is_none());
    assert!(plain(KeyCode::Char('9')).is_none());
    assert!(plain(KeyCode::Char('0')).is_none());
    assert!(matches!(
        plain(KeyCode::Char(';')),
        Some(AppEvent::Debug(DebugLogsEvent::ToggleVisibility))
    ));
    assert!(matches!(plain(KeyCode::Char('q')), Some(AppEvent::Quit)));
    assert!(plain(KeyCode::Char('x')).is_none());
    assert!(plain(KeyCode::Enter).is_none());
    assert!(plain(KeyCode::Esc).is_none());
    assert!(plain(KeyCode::Other).is_none());
}

#[test]
fn escape_with_nothing_to_cancel_is_ignored() {
    let mut app = ready();
    press(&mut app, &[KeyCode::Esc]);
    assert!(!app.should_quit);
    assert_eq!(app.route, Route::Setup);
    assert!(app.setup.focused().is_none());
}

#[test]
fn typing_a_project_identifier_key_by_key() {
    let mut app = ready();
    press(
        &mut app,
        &[
            KeyCode::Down,
            KeyCode::Char(' '),
            KeyCode::Char('d'),
            KeyCode::Char('e'),
            KeyCode::Char('m'),
            KeyCode::Char('x'),
            KeyCode::Backspace,
            KeyCode::Char('o'),
        ],
    );
    assert_eq!(app.setup.focused().as_deref(), Some("project_id"));
    assert!(app.setup.is_editing());
    assert_eq!(app.setup.field("project_id").input(), "demo");
    assert_eq!(app.setup.field("project_id").character_index(), 4);
    assert_eq!(app.setup.get("project_id"), "");
    press(&mut app, &[KeyCode::Enter]);
    assert_eq!(app.setup.get("project_id"), "demo");
    assert!(!app.setup.is_editing());
    assert_eq!(app.setup.field("project_id").input(), "");
    // Escape now unfocuses, and a second Escape is ignored
    press(&mut app, &[KeyCode::Esc]);
    assert!(app.setup.focused().is_none());
    press(&mut app, &[KeyCode::Esc]);
    assert!(!app.should_quit);
}

#[test]
fn a_cancelled_edit_leaves_the_value() {
    let mut app = ready();
    press(
        &mut app,
        &[KeyCode::Up, KeyCode::Down, KeyCode::Char(' '), KeyCode::Backspace, KeyCode::Esc],
    );
    assert_eq!(app.setup.focused().as_deref(), Some("host"));
    assert_eq!(app.setup.get("host"), "localhost");
    assert!(!app.setup.is_editing());
}

#[test]
fn tab_goes_round_the_screens() {
    let mut app = ready();
    press(&mut app, &[KeyCode::Tab]);
    assert_eq!(app.route, Route::Topics);
    press(&mut app, &[KeyCode::Tab]);
    assert_eq!(app.route, Route::Setup);
    press(&mut app, &[KeyCode::BackTab]);
    assert_eq!(app.route, Route::Topics);
    press(&mut app, &[KeyCode::Char('1')]);
    assert_eq!(app.route, Route::Setup);
    press(&mut app, &[KeyCode::Char('2'), KeyCode::Char('2')]);
    assert_eq!(app.route, Route::Topics);
}

#[test]
fn a_follow_up_is_handled_before_what_arrived_later() {
    let mut app = ready();
    let mut queue = EventQueue::new();
    queue.push_back(key(KeyCode::Down));
    queue.push_back(key(KeyCode::Char(' ')));
    assert_eq!(queue.len(), 2);
    // the first key asks for the focus; the request goes to the front
    assert!(step(&mut app, &mut queue).is_none());
    assert_eq!(queue.len(), 2);
    assert!(app.setup.focused().is_none());
    // the request is handled before the second key
    assert!(step(&mut app, &mut queue).is_none());
    assert_eq!(queue.len(), 1);
    assert_eq!(app.setup.focused().as_deref(), Some("project_id"));
    assert!(!app.setup.is_editing());
    // now the second key finds the field focused
    step(&mut app, &mut queue);
    assert_eq!(queue.len(), 1);
    step(&mut app, &mut queue);
    assert!(queue.is_empty());
    assert!(app.setup.is_editing());
    assert!(step(&mut app, &mut queue).is_none());
}

#[test]
fn had_the_follow_up_waited_the_second_key_would_have_been_lost() {
    // the space bar is handled by no one while nothing is focused
    let app = ready();
    assert!(on_key(&app, KeyEvent::plain(KeyCode::Char(' '))).is_none());
}

#[test]
fn quit_is_terminal() {
    let mut app = ready();
    let mut queue = EventQueue::new();
    queue.push_back(quit());
    queue.push_back(key(KeyCode::Tab));
    queue.push_back(AppEvent::Tick);
    assert!(step(&mut app, &mut queue).is_none());
    assert!(app.should_quit);
    assert_eq!(queue.len(), 2);
    assert!(step(&mut app, &mut queue).is_none());
    assert_eq!(queue.len(), 2);
    assert_eq!(app.route, Route::Setup);
    assert_eq!(app.ticks, 0);
    assert!(matches!(on_event(&mut app, AppEvent::Tick), Reaction::Nothing));
    assert_eq!(app.ticks, 0);
    assert!(matches!(on_event(&mut app, key(KeyCode::Tab)), Reaction::Nothing));
}

#[test]
fn on_quit_sets_the_flag_only() {
    let mut app = ready();
    assert!(on_quit(&mut app).is_none());
    assert!(app.should_quit);
    assert_eq!(app.route, Route::Setup);
    assert_eq!(app.ticks, 0);
}

#[test]
fn ticks_are_counted_and_change_nothing_else() {
    let mut app = ready();
    press(&mut app, &[KeyCode::Down]);
    for n in 1..=12u64 {
        assert!(matches!(on_event(&mut app, AppEvent::Tick), Reaction::Nothing));
        assert_eq!(app.ticks, n);
    }
    assert_eq!(app.route, Route::Setup);
    assert_eq!(app.setup.focused().as_deref(), Some("project_id"));
    assert!(!app.should_quit);
    assert!(app.debug_logs.logs().is_empty());
    assert!(app.pubsub.status().info.is_none());
}

#[test]
fn the_tick_count_starts_again_after_the_largest() {
    let mut app = ready();
    app.ticks = u64::MAX - 1;
    assert!(on_tick(&mut app).is_none());
    assert_eq!(app.ticks, u64::MAX);
    on_tick(&mut app);
    assert_eq!(app.ticks, 0);
}

#[test]
fn log_lines_come_on_show_on_every_fifth_tick() {
    let mut app = ready();
    debug_log(&mut app.debug_logs, "first".to_string());
    for _ in 0..4 {
        on_tick(&mut app);
        assert!(app.debug_logs.logs().is_empty());
    }
    on_tick(&mut app);
    assert_eq!(app.ticks, 5);
    assert_eq!(app.debug_logs.logs(), &vec!["first".to_string()]);
    debug_log(&mut app.debug_logs, "second".to_string());
    on_tick(&mut app);
    assert_eq!(app.debug_logs.logs().len(), 1);
    for _ in 0..4 {
        on_tick(&mut app);
    }
    assert_eq!(app.ticks, 10);
    assert_eq!(app.debug_logs.logs(), &vec!["first".to_string(), "second".to_string()]);
}

#[test]
fn the_log_key_shows_and_hides_the_panel() {
    let mut app = ready();
    press(&mut app, &[KeyCode::Char(';')]);
    assert!(app.debug_logs.visible());
    press(&mut app, &[KeyCode::Char(';')]);
    assert!(!app.debug_logs.visible());
}

#[test]
fn a_project_change_ends_in_a_command_to_connect() {
    let mut app = ready();
    let mut queue = EventQueue::new();
    queue.push_back(AppEvent::Pubsub(PubsubEvent::ChangeProjectId("demo".to_string())));
    queue.push_back(AppEvent::Tick);
    // the change asks for a connection, which is handled next and becomes a command
    assert!(step(&mut app, &mut queue).is_none());
    assert_eq!(queue.len(), 2);
    match step(&mut app, &mut queue) {
        Some(Command::Connect(id)) => assert_eq!(id, "demo"),
        _ => panic!("the connection is to be made"),
    }
    assert_eq!(app.ticks, 0);
    assert_eq!(app.pubsub.status().connection, ConnectionStatus::Connecting);
    // the outcome goes to the front and is handled before the tick
    queue.push_front(AppEvent::Pubsub(PubsubEvent::Connected));
    assert!(step(&mut app, &mut queue).is_none());
    assert_eq!(app.pubsub.status().connection, ConnectionStatus::Connected);
    assert_eq!(app.ticks, 0);
    assert!(step(&mut app, &mut queue).is_none());
    assert_eq!(app.ticks, 1);
    assert!(queue.is_empty());
}

#[test]
fn the_topics_screen_from_refresh_to_filter() {
    let mut app = ready();
    app.route = Route::Topics;
    let mut queue = EventQueue::new();
    // without a connection the refresh ends in a word to the user
    queue.push_back(key(KeyCode::Char('r')));
    assert!(drain(&mut app, &mut queue).is_empty());
    assert_eq!(app.pubsub.status().info.as_deref(), Some("Not connected to Pub/Sub"));
    queue.push_back(AppEvent::Pubsub(PubsubEvent::Connected));
    queue.push_back(key(KeyCode::Char('r')));
    let commands = drain(&mut app, &mut queue);
    assert!(matches!(commands.as_slice(), [Command::FetchTopics]));
    let list = ["orders", "Billing", "audit-log"]
        .iter()
        .map(|n| TopicInfo { name: n.to_string() })
        .collect();
    queue.push_front(AppEvent::Pubsub(PubsubEvent::GotTopics(list)));
    drain(&mut app, &mut queue);
    assert_eq!(app.pubsub.status().topics, 3);
    press(&mut app, &[KeyCode::Char('j'), KeyCode::Down]);
    assert_eq!(app.pubsub.topics().selected(), Some(1));
    press(&mut app, &[KeyCode::Char('/'), KeyCode::Char('o'), KeyCode::Char('r')]);
    let shown: Vec<&str> =
        app.pubsub.topics().visible().iter().map(|t| t.name.as_str()).collect();
    assert_eq!(shown, vec!["orders"]);
    assert_eq!(app.pubsub.topics().selected(), Some(0));
    assert_eq!(app.pubsub.topics().filter_text(), "or");
    // while filtering, q is typed into the filter and does not quit
    press(&mut app, &[KeyCode::Char('q')]);
    assert!(!app.should_quit);
    assert_eq!(app.pubsub.topics().filter_text(), "orq");
    assert!(app.pubsub.topics().visible().is_empty());
    assert_eq!(app.pubsub.topics().selected(), None);
    press(&mut app, &[KeyCode::Esc]);
    assert!(!app.pubsub.topics().filter_active());
    assert_eq!(app.pubsub.topics().visible().len(), 3);
    press(&mut app, &[KeyCode::Char('q')]);
    assert!(app.should_quit);
}

#[test]
fn topics_events_reach_the_list() {
    let mut app = ready();
    let out = on_event(&mut app, AppEvent::Pubsub(PubsubEvent::Topics(TopicsEvent::Refresh)));
    assert!(matches!(out, Reaction::FollowUp(AppEvent::Pubsub(PubsubEvent::GetTopics))));
}

#[test]
fn an_empty_queue_gives_nothing_to_do() {
    let mut app = ready();
    let mut queue = EventQueue::new();
    assert!(queue.is_empty());
    assert!(step(&mut app, &mut queue).is_none());
    assert_eq!(app.ticks, 0);
}

#[test]
fn the_front_of_the_queue_is_what_is_handled_next() {
    let mut queue = EventQueue::new();
    assert!(queue.front().is_none());
    queue.push_back(AppEvent::Tick);
    queue.push_back(quit());
    assert!(matches!(queue.front(), Some(AppEvent::Tick)));
    queue.push_front(key(KeyCode::Tab));
    assert!(matches!(queue.front(), Some(AppEvent::Input(_))));
    assert_eq!(queue.len(), 3);
}

#[test]
fn events_that_name_a_missing_field_are_turned_away() {
    let app = ready();
    let mut queue = EventQueue::new();
    let text = |name: &str| TextFieldEvent::new(name.to_string(), TextFieldEventType::StartEditing);
    let pick = |name: &str, index| {
        ChoicesEvent::new(name.to_string(), ChoicesEventType::SetChosenIndex(index))
    };
    let config = |e| AppEvent::Pubsub(PubsubEvent::Config(ConfigEvent::ConfigFieldEvent(e)));
    let turned_away = [
        AppEvent::Setup(SetupEvent::Focus(Some("missing".to_string()))),
        AppEvent::Setup(SetupEvent::Focus(Some("emulator".to_string()))),
        AppEvent::Setup(SetupEvent::SetupFieldEvent(text("global"))),
        AppEvent::Setup(SetupEvent::ChangeSetupValue("".to_string(), "v".to_string())),
        AppEvent::Pubsub(PubsubEvent::Config(ConfigEvent::Focus(Some("missing".to_string())))),
        config(FieldEvent::TextFieldEvent(text("emulator"))),
        config(FieldEvent::TextFieldEvent(text("missing"))),
        config(FieldEvent::ChoicesEvent(pick("host", None))),
        config(FieldEvent::ChoicesEvent(pick("emulator", Some(2)))),
    ];
    for event in turned_away {
        assert!(!app.accepts(&event));
        assert!(!offer(&app, &mut queue, event));
        assert!(queue.is_empty());
    }
    let taken = [
        AppEvent::Tick,
        quit(),
        key(KeyCode::Esc),
        AppEvent::Route(RouteEvent::Next),
        AppEvent::Debug(DebugLogsEvent::ToggleVisibility),
        AppEvent::Setup(SetupEvent::Focus(None)),
        AppEvent::Setup(SetupEvent::Focus(Some("host".to_string()))),
        AppEvent::Setup(SetupEvent::SetupFieldEvent(text("port"))),
        AppEvent::Setup(SetupEvent::ChangeSetupValue("port".to_string(), "1".to_string())),
        AppEvent::Pubsub(PubsubEvent::Connect),
        AppEvent::Pubsub(PubsubEvent::Config(ConfigEvent::Focus(Some("emulator".to_string())))),
        config(FieldEvent::TextFieldEvent(text("host"))),
        config(FieldEvent::ChoicesEvent(pick("emulator", Some(1)))),
        config(FieldEvent::ChoicesEvent(pick("emulator", None))),
    ];
    let mut count = 0;
    for event in taken {
        assert!(app.accepts(&event));
        assert!(offer(&app, &mut queue, event));
        count += 1;
        assert_eq!(queue.len(), count);
    }
    assert!(matches!(queue.front(), Some(AppEvent::Tick)));
}
