//! The link to the message service as the dashboard sees it: the settings
//! of the connection, its status, the project in use and the topic list.
//!
//! Nothing here talks to the service. Where work outside is due, a handler
//! answers with a `Command`; the program around the core carries it out and
//! hands the outcome back as an event.

use crate::component::reusable::choices::{
    choice_views, lemma_set_value_wf, Choice, ChoiceView, Choices, ChoicesEvent,
    ChoicesEventType, ChoicesEventView, ChoicesView,
};
use crate::component::reusable::text_field::{
    TextField, TextFieldEvent, TextFieldEventType, TextFieldEventView, TextFieldView,
};
use crate::component::reusable::{choices, text_field};
use crate::component::setup::{cycle_next, cycle_previous, fresh_field};
use crate::component::topics::{
    empty_topics, names, TopicInfo, Topics, TopicsEvent, TopicsEventView, TopicsView,
};
use crate::component::topics;
use crate::input::{handled, not_handled, view_of, InputHandled, KeyCode, KeyEvent};
use crate::text::str_eq;
use vstd::prelude::*;
use vstd::string::StringExecFns;

verus! {

/// How the link to the service stands.
#[derive(Clone, Copy, Debug, PartialEq, Eq, Structural)]
pub enum ConnectionStatus {
    Connected,
    Disconnected,
    Connecting,
}

/// What the status line shows.
#[derive(Debug)]
pub struct PubsubStatus {
    pub connection: ConnectionStatus,
    /// Number of topics that the service last reported.
    pub topics: usize,
    /// The last thing worth telling the user.
    pub info: Option<String>,
}

/// The status as plain values.
pub struct PubsubStatusView {
    pub connection: ConnectionStatus,
    pub topics: usize,
    pub info: Option<Seq<char>>,
}

impl View for PubsubStatus {
    type V = PubsubStatusView;

    open spec fn view(&self) -> PubsubStatusView {
        PubsubStatusView {
            connection: self.connection,
            topics: self.topics,
            info: view_of(self.info),
        }
    }
}

impl Default for PubsubStatus {
    fn default() -> (status: Self)
        ensures
            status@ == (PubsubStatusView {
                connection: ConnectionStatus::Disconnected,
                topics: 0,
                info: None,
            }),
    {
        PubsubStatus { connection: ConnectionStatus::Disconnected, topics: 0, info: None }
    }
}

/// A field of the settings: free text, or one of a list of choices.
pub enum Field {
    Text(TextField),
    Choices(Choices),
}

/// A field of the settings as plain values.
pub enum FieldView {
    Text(TextFieldView),
    Choices(ChoicesView),
}

impl View for Field {
    type V = FieldView;

    open spec fn view(&self) -> FieldView {
        match self {
            Field::Text(f) => FieldView::Text(f@),
            Field::Choices(f) => FieldView::Choices(f@),
        }
    }
}

impl FieldView {
    pub open spec fn name(self) -> Seq<char> {
        match self {
            FieldView::Text(f) => f.name,
            FieldView::Choices(f) => f.name,
        }
    }

    pub open spec fn label(self) -> Seq<char> {
        match self {
            FieldView::Text(f) => f.label,
            FieldView::Choices(f) => f.label,
        }
    }

    pub open spec fn value(self) -> Seq<char> {
        match self {
            FieldView::Text(f) => f.value,
            FieldView::Choices(f) => f.value,
        }
    }

    pub open spec fn is_editing(self) -> bool {
        match self {
            FieldView::Text(f) => f.editing,
            FieldView::Choices(f) => f.editing,
        }
    }

    pub open spec fn wf(self) -> bool {
        match self {
            FieldView::Text(f) => f.wf(),
            FieldView::Choices(f) => f.wf(),
        }
    }

    /// Number of choices of a choices field; nothing for a text field.
    pub open spec fn choice_count(self) -> Option<nat> {
        match self {
            FieldView::Text(_) => None,
            FieldView::Choices(f) => Some(f.choices.len()),
        }
    }

    /// Sets the value. A choices field chooses the first entry that stands
    /// for the value, and nothing where no entry does.
    pub open spec fn set_value(self, value: Seq<char>) -> FieldView {
        match self {
            FieldView::Text(f) => FieldView::Text(TextFieldView { value, ..f }),
            FieldView::Choices(f) => FieldView::Choices(f.set_value(value)),
        }
    }

    /// What the field says of a key.
    pub open spec fn on_key(self, key: KeyEvent) -> InputHandled<FieldEventView> {
        match self {
            FieldView::Text(f) => match f.on_key(key) {
                InputHandled::Handled(Some(e)) => InputHandled::Handled(
                    Some(FieldEventView::TextFieldEvent(e)),
                ),
                InputHandled::Handled(None) => InputHandled::Handled(None),
                InputHandled::NotHandled => InputHandled::NotHandled,
            },
            FieldView::Choices(f) => match f.on_key(key) {
                InputHandled::Handled(Some(e)) => InputHandled::Handled(
                    Some(FieldEventView::ChoicesEvent(e)),
                ),
                InputHandled::Handled(None) => InputHandled::Handled(None),
                InputHandled::NotHandled => InputHandled::NotHandled,
            },
        }
    }
}

impl Field {
    pub fn name(&self) -> (r: &String)
        ensures
            r@ == self@.name(),
    {
        match self {
            Field::Text(f) => f.name(),
            Field::Choices(f) => f.name(),
        }
    }

    pub fn label(&self) -> (r: &String)
        ensures
            r@ == self@.label(),
    {
        match self {
            Field::Text(f) => f.label(),
            Field::Choices(f) => f.label(),
        }
    }

    pub fn value(&self) -> (r: &String)
        ensures
            r@ == self@.value(),
    {
        match self {
            Field::Text(f) => f.value(),
            Field::Choices(f) => f.value(),
        }
    }

    /// The value of a text field; nothing for a choices field.
    pub fn as_text(&self) -> (r: Option<&String>)
        ensures
            match self@ {
                FieldView::Text(f) => r matches Some(s) && s@ == f.value,
                FieldView::Choices(_) => r is None,
            },
    {
        match self {
            Field::Text(f) => Some(f.value()),
            Field::Choices(_) => None,
        }
    }

    /// The choices of a choices field; nothing for a text field.
    pub fn as_choices(&self) -> (r: Option<&Vec<Choice>>)
        ensures
            match self@ {
                FieldView::Text(_) => r is None,
                FieldView::Choices(f) => r matches Some(list) && choice_views(list@) == f.choices,
            },
    {
        match self {
            Field::Text(_) => None,
            Field::Choices(f) => Some(f.choices()),
        }
    }

    pub fn set_value(&mut self, value: String)
        ensures
            final(self)@ == old(self)@.set_value(value@),
            old(self)@.wf() ==> final(self)@.wf(),
    {
        match self {
            Field::Text(f) => f.set_value(value),
            Field::Choices(f) => f.set_value(value),
        }
    }

    pub fn is_editing(&self) -> (r: bool)
        ensures
            r == self@.is_editing(),
    {
        match self {
            Field::Text(f) => f.is_editing(),
            Field::Choices(f) => f.is_editing(),
        }
    }
}

/// An event for, or from, a field of the settings.
#[derive(Debug)]
pub enum FieldEvent {
    TextFieldEvent(TextFieldEvent),
    ChoicesEvent(ChoicesEvent),
}

/// A field event as plain values.
pub enum FieldEventView {
    TextFieldEvent(TextFieldEventView),
    ChoicesEvent(ChoicesEventView),
}

impl View for FieldEvent {
    type V = FieldEventView;

    open spec fn view(&self) -> FieldEventView {
        match self {
            FieldEvent::TextFieldEvent(e) => FieldEventView::TextFieldEvent(e@),
            FieldEvent::ChoicesEvent(e) => FieldEventView::ChoicesEvent(e@),
        }
    }
}

impl Clone for FieldEvent {
    fn clone(&self) -> (out: Self)
        ensures
            out@ == self@,
    {
        match self {
            FieldEvent::TextFieldEvent(e) => FieldEvent::TextFieldEvent(e.clone()),
            FieldEvent::ChoicesEvent(e) => FieldEvent::ChoicesEvent(e.clone()),
        }
    }
}

impl FieldEventView {
    /// The name of the field that the event is for, or from.
    pub open spec fn name(self) -> Seq<char> {
        match self {
            FieldEventView::TextFieldEvent(e) => e.name,
            FieldEventView::ChoicesEvent(e) => e.name,
        }
    }

    /// Whether the event reports that the value of its field changed.
    pub open spec fn is_value_changed(self) -> bool {
        match self {
            FieldEventView::TextFieldEvent(e) => e.event_type == TextFieldEventType::ValueChanged,
            FieldEventView::ChoicesEvent(e) => e.event_type == ChoicesEventType::ValueChanged,
        }
    }
}

/// A request to the settings.
#[derive(Debug)]
pub enum ConfigEvent {
    ConfigFieldEvent(FieldEvent),
    /// Focus the named field, or none.
    Focus(Option<String>),
}

/// A request to the settings as plain values.
pub enum ConfigEventView {
    ConfigFieldEvent(FieldEventView),
    Focus(Option<Seq<char>>),
}

impl View for ConfigEvent {
    type V = ConfigEventView;

    open spec fn view(&self) -> ConfigEventView {
        match self {
            ConfigEvent::ConfigFieldEvent(e) => ConfigEventView::ConfigFieldEvent(e@),
            ConfigEvent::Focus(name) => ConfigEventView::Focus(view_of(*name)),
        }
    }
}

impl Clone for ConfigEvent {
    fn clone(&self) -> (out: Self)
        ensures
            out@ == self@,
    {
        match self {
            ConfigEvent::ConfigFieldEvent(e) => ConfigEvent::ConfigFieldEvent(e.clone()),
            ConfigEvent::Focus(name) => ConfigEvent::Focus(
                match name {
                    Some(n) => Some(n.clone()),
                    None => None,
                },
            ),
        }
    }
}

/// Work that the program around the core is asked to do with the service.
#[derive(Debug)]
pub enum Command {
    /// Connect for the given project. The outcome comes back as
    /// `PubsubEvent::Connected` or `PubsubEvent::ConnectFailed`.
    Connect(String),
    /// Fetch the topics. The outcome comes back as `PubsubEvent::GotTopics`
    /// or `PubsubEvent::GetTopicsFailed`.
    FetchTopics,
}

/// A command as plain values.
pub enum CommandView {
    Connect(Seq<char>),
    FetchTopics,
}

impl View for Command {
    type V = CommandView;

    open spec fn view(&self) -> CommandView {
        match self {
            Command::Connect(id) => CommandView::Connect(id@),
            Command::FetchTopics => CommandView::FetchTopics,
        }
    }
}

/// What handling an event asks for: nothing, one follow-up event, or work
/// outside the core.
pub enum Reaction<E> {
    Nothing,
    FollowUp(E),
    Run(Command),
}

/// A reaction as plain values.
pub enum ReactionView<E> {
    Nothing,
    FollowUp(E),
    Run(CommandView),
}

impl<E: View> View for Reaction<E> {
    type V = ReactionView<E::V>;

    open spec fn view(&self) -> ReactionView<E::V> {
        match self {
            Reaction::Nothing => ReactionView::Nothing,
            Reaction::FollowUp(e) => ReactionView::FollowUp(e@),
            Reaction::Run(c) => ReactionView::Run(c@),
        }
    }
}

/// An event of the link to the service.
#[derive(Debug)]
pub enum PubsubEvent {
    /// Connect for the project in use.
    Connect,
    /// The connection stands.
    Connected,
    /// The connection could not be made, for the given reason.
    ConnectFailed(String),
    /// Fetch the topics.
    GetTopics,
    /// The service reported these topics.
    GotTopics(Vec<TopicInfo>),
    /// The topics could not be fetched, for the given reason.
    GetTopicsFailed(String),
    Config(ConfigEvent),
    ChangeProjectId(String),
    Topics(TopicsEvent),
}

/// An event of the link to the service as plain values.
pub enum PubsubEventView {
    Connect,
    Connected,
    ConnectFailed(Seq<char>),
    GetTopics,
    GotTopics(Seq<Seq<char>>),
    GetTopicsFailed(Seq<char>),
    Config(ConfigEventView),
    ChangeProjectId(Seq<char>),
    Topics(TopicsEventView),
}

impl View for PubsubEvent {
    type V = PubsubEventView;

    open spec fn view(&self) -> PubsubEventView {
        match self {
            PubsubEvent::Connect => PubsubEventView::Connect,
            PubsubEvent::Connected => PubsubEventView::Connected,
            PubsubEvent::ConnectFailed(reason) => PubsubEventView::ConnectFailed(reason@),
            PubsubEvent::GetTopics => PubsubEventView::GetTopics,
            PubsubEvent::GotTopics(list) => PubsubEventView::GotTopics(names(list@)),
            PubsubEvent::GetTopicsFailed(reason) => PubsubEventView::GetTopicsFailed(reason@),
            PubsubEvent::Config(e) => PubsubEventView::Config(e@),
            PubsubEvent::ChangeProjectId(id) => PubsubEventView::ChangeProjectId(id@),
            PubsubEvent::Topics(e) => PubsubEventView::Topics(e@),
        }
    }
}

impl Clone for PubsubEvent {
    fn clone(&self) -> (out: Self)
        ensures
            out@ == self@,
    {
        match self {
            PubsubEvent::Connect => PubsubEvent::Connect,
            PubsubEvent::Connected => PubsubEvent::Connected,
            PubsubEvent::ConnectFailed(reason) => PubsubEvent::ConnectFailed(reason.clone()),
            PubsubEvent::GetTopics => PubsubEvent::GetTopics,
            PubsubEvent::GotTopics(list) => PubsubEvent::GotTopics(topics::copy_topics(list)),
            PubsubEvent::GetTopicsFailed(reason) => PubsubEvent::GetTopicsFailed(reason.clone()),
            PubsubEvent::Config(e) => PubsubEvent::Config(e.clone()),
            PubsubEvent::ChangeProjectId(id) => PubsubEvent::ChangeProjectId(id.clone()),
            PubsubEvent::Topics(e) => PubsubEvent::Topics(e.clone()),
        }
    }
}

/// The request to use another project.
pub fn set_project_id(id: String) -> (event: PubsubEvent)
    ensures
        event@ == PubsubEventView::ChangeProjectId(id@),
{
    PubsubEvent::ChangeProjectId(id)
}

/// The request to focus a field of the settings.
fn focus(name: &str) -> (event: ConfigEvent)
    ensures
        event@ == ConfigEventView::Focus(Some(name@)),
{
    ConfigEvent::Focus(Some(name.to_owned()))
}

/// The request to take the focus from the fields of the settings.
fn unfocus() -> (event: ConfigEvent)
    ensures
        event@ == ConfigEventView::Focus(None),
{
    ConfigEvent::Focus(None)
}

/// Whether the field at place `i` exists and bears `name`.
pub open spec fn config_named(fields: Seq<FieldView>, i: int, name: Seq<char>) -> bool {
    0 <= i < fields.len() && fields[i].name() == name
}

/// The fields of a list as plain values, in order.
pub open spec fn config_views(fields: Seq<Field>) -> Seq<FieldView> {
    fields.map_values(|f: Field| f@)
}

/// The names of the fields of the settings, in order.
pub open spec fn config_names() -> Seq<Seq<char>> {
    seq!["project_id"@, "host"@, "port"@, "emulator"@]
}

/// The settings as plain values.
pub struct PubsubConfigView {
    pub fields: Seq<FieldView>,
    /// The name of the focused field.
    pub focused: Option<Seq<char>>,
}

impl PubsubConfigView {
    /// Whether a field bears `name`.
    pub open spec fn has(self, name: Seq<char>) -> bool {
        exists|i: int| config_named(self.fields, i, name)
    }

    /// The place of the field that bears `name`.
    pub open spec fn index_of(self, name: Seq<char>) -> int {
        choose|i: int| config_named(self.fields, i, name)
    }

    /// The names of the fields, in order.
    pub open spec fn names(self) -> Seq<Seq<char>> {
        self.fields.map_values(|f: FieldView| f.name())
    }

    /// For each field the number of its choices, in order; nothing for a
    /// text field.
    pub open spec fn kinds(self) -> Seq<Option<nat>> {
        self.fields.map_values(|f: FieldView| f.choice_count())
    }

    /// The fields are those of the settings, each well formed, no two of
    /// one name, and the focused name is that of a field.
    pub open spec fn wf(self) -> bool {
        &&& self.names() == config_names()
        &&& forall|i: int| 0 <= i < self.fields.len() ==> (#[trigger] self.fields[i]).wf()
        &&& forall|i: int, j: int|
            0 <= i < j < self.fields.len() ==> (#[trigger] self.fields[i]).name() != (
            #[trigger] self.fields[j]).name()
        &&& self.focused matches Some(name) ==> self.has(name)
    }

    /// The field that bears `name`.
    pub open spec fn field(self, name: Seq<char>) -> FieldView {
        self.fields[self.index_of(name)]
    }

    /// The value of the field that bears `name`.
    pub open spec fn get(self, name: Seq<char>) -> Seq<char> {
        self.field(name).value()
    }

    /// The settings with the field that bears `name` replaced.
    pub open spec fn with_field(self, name: Seq<char>, field: FieldView) -> PubsubConfigView {
        PubsubConfigView { fields: self.fields.update(self.index_of(name), field), ..self }
    }

    /// Sets the value of the field that bears `name`.
    pub open spec fn set(self, name: Seq<char>, value: Seq<char>) -> PubsubConfigView {
        self.with_field(name, self.field(name).set_value(value))
    }

    /// Whether the focused field is being edited.
    pub open spec fn is_editing(self) -> bool {
        match self.focused {
            Some(name) => self.field(name).is_editing(),
            None => false,
        }
    }

    /// Whether a field event can be applied: its field must exist and be of
    /// the kind that the event is for, and an entry to point at must exist.
    pub open spec fn accepts_field_event(self, e: FieldEventView) -> bool {
        self.has(e.name()) && match (e, self.field(e.name())) {
            (FieldEventView::TextFieldEvent(_), FieldView::Text(_)) => true,
            (FieldEventView::ChoicesEvent(event), FieldView::Choices(f)) => f.accepts(
                event.event_type,
            ),
            _ => false,
        }
    }

    /// Whether a request can be applied.
    pub open spec fn accepts(self, e: ConfigEventView) -> bool {
        match e {
            ConfigEventView::ConfigFieldEvent(event) => self.accepts_field_event(event),
            ConfigEventView::Focus(Some(name)) => self.has(name),
            ConfigEventView::Focus(None) => true,
        }
    }

    /// The field that an event names, after the event.
    pub open spec fn field_after(self, e: FieldEventView) -> FieldView {
        match (e, self.field(e.name())) {
            (FieldEventView::TextFieldEvent(event), FieldView::Text(f)) => FieldView::Text(
                f.apply(event.event_type),
            ),
            (FieldEventView::ChoicesEvent(event), FieldView::Choices(f)) => FieldView::Choices(
                f.apply(event.event_type),
            ),
            (_, f) => f,
        }
    }

    /// The settings after a request. A report that a value changed changes
    /// nothing.
    pub open spec fn apply(self, e: ConfigEventView) -> PubsubConfigView {
        match e {
            ConfigEventView::ConfigFieldEvent(event) => if event.is_value_changed() {
                self
            } else {
                self.with_field(event.name(), self.field_after(event))
            },
            ConfigEventView::Focus(name) => PubsubConfigView { focused: name, ..self },
        }
    }

    /// What a field asks for after an event.
    pub open spec fn field_follow_up(self, e: FieldEventView) -> Option<FieldEventView> {
        match (e, self.field(e.name())) {
            (FieldEventView::TextFieldEvent(event), FieldView::Text(f)) => match f.follow_up(
                event.event_type,
            ) {
                Some(next) => Some(FieldEventView::TextFieldEvent(next)),
                None => None,
            },
            (FieldEventView::ChoicesEvent(event), FieldView::Choices(f)) => match f.follow_up(
                event.event_type,
            ) {
                Some(next) => Some(FieldEventView::ChoicesEvent(next)),
                None => None,
            },
            _ => None,
        }
    }

    /// What the settings ask for after a request. A changed project
    /// identifier asks for the project to be changed; any other event of a
    /// field asks for what the field asks for.
    pub open spec fn follow_up(self, e: ConfigEventView) -> Option<PubsubEventView> {
        match e {
            ConfigEventView::ConfigFieldEvent(event) => if event.is_value_changed() {
                if event.name() == "project_id"@ {
                    Some(PubsubEventView::ChangeProjectId(self.get(event.name())))
                } else {
                    None
                }
            } else {
                match self.field_follow_up(event) {
                    Some(next) => Some(
                        PubsubEventView::Config(ConfigEventView::ConfigFieldEvent(next)),
                    ),
                    None => None,
                }
            },
            ConfigEventView::Focus(_) => None,
        }
    }

    /// What an arrow key asks for: the focus goes to the first field where
    /// none is focused, and otherwise to the neighbour of the focused field,
    /// round the ends.
    pub open spec fn arrow_target(self, up: bool) -> Option<Seq<char>> {
        if self.fields.len() == 0 {
            None
        } else {
            match self.focused {
                None => Some(self.fields[0].name()),
                Some(name) => {
                    let i = self.index_of(name);
                    let len = self.fields.len() as int;
                    Some(
                        self.fields[if up {
                            cycle_previous(i, len)
                        } else {
                            cycle_next(i, len)
                        }].name(),
                    )
                },
            }
        }
    }

    /// What a key means to the settings themselves, once the focused field
    /// has declined it.
    pub open spec fn screen_key(self, key: KeyEvent) -> InputHandled<ConfigEventView> {
        match key.code {
            KeyCode::Up => match self.arrow_target(true) {
                Some(name) => InputHandled::Handled(Some(ConfigEventView::Focus(Some(name)))),
                None => InputHandled::NotHandled,
            },
            KeyCode::Down => match self.arrow_target(false) {
                Some(name) => InputHandled::Handled(Some(ConfigEventView::Focus(Some(name)))),
                None => InputHandled::NotHandled,
            },
            KeyCode::Esc => if self.focused is Some {
                InputHandled::Handled(Some(ConfigEventView::Focus(None)))
            } else {
                InputHandled::NotHandled
            },
            _ => InputHandled::NotHandled,
        }
    }

    /// What the focused field says of a key; nothing is handled where no
    /// field is focused.
    pub open spec fn field_key(self, key: KeyEvent) -> InputHandled<ConfigEventView> {
        match self.focused {
            Some(name) => match self.field(name).on_key(key) {
                InputHandled::Handled(Some(event)) => InputHandled::Handled(
                    Some(ConfigEventView::ConfigFieldEvent(event)),
                ),
                InputHandled::Handled(None) => InputHandled::Handled(None),
                InputHandled::NotHandled => InputHandled::NotHandled,
            },
            None => InputHandled::NotHandled,
        }
    }

    /// The answer of the settings to a key: that of the focused field where
    /// it handles the key, and that of the settings themselves otherwise.
    pub open spec fn on_key(self, key: KeyEvent) -> InputHandled<ConfigEventView> {
        if self.field_key(key) is Handled {
            self.field_key(key)
        } else {
            self.screen_key(key)
        }
    }
}

/// In well-formed settings a name is borne by one field only.
pub proof fn lemma_config_index_of(view: PubsubConfigView, i: int, name: Seq<char>)
    requires
        view.wf(),
        config_named(view.fields, i, name),
    ensures
        view.has(name),
        view.index_of(name) == i,
{
    let j = view.index_of(name);
    assert(config_named(view.fields, j, name));
    if i < j {
        assert(view.fields[i].name() != view.fields[j].name());
    }
    if j < i {
        assert(view.fields[j].name() != view.fields[i].name());
    }
}

/// Replacing a field by a well-formed one of the same name and kind keeps
/// the settings well formed, and every request that was accepted before is
/// accepted after.
pub proof fn lemma_config_with_field(view: PubsubConfigView, name: Seq<char>, field: FieldView)
    requires
        view.wf(),
        view.has(name),
        field.wf(),
        field.name() == name,
        field.choice_count() == view.field(name).choice_count(),
    ensures
        view.with_field(name, field).wf(),
        view.with_field(name, field).names() == view.names(),
        view.with_field(name, field).kinds() == view.kinds(),
        view.with_field(name, field).field(name) == field,
{
    let after = view.with_field(name, field);
    let at = view.index_of(name);
    assert(config_named(view.fields, at, name));
    assert(after.names() =~= view.names());
    assert(after.kinds() =~= view.kinds());
    assert forall|i: int, j: int| 0 <= i < j < after.fields.len() implies (
    #[trigger] after.fields[i]).name() != (#[trigger] after.fields[j]).name() by {
        assert(view.fields[i].name() != view.fields[j].name());
    }
    assert forall|i: int| 0 <= i < after.fields.len() implies (#[trigger] after.fields[i]).wf() by {
        assert(view.fields[i].wf());
    }
    if let Some(focus) = view.focused {
        let k = view.index_of(focus);
        assert(config_named(view.fields, k, focus));
        assert(config_named(after.fields, k, focus));
    }
    assert(config_named(after.fields, at, name));
    lemma_config_index_of(after, at, name);
}

/// Settings with the same names and kinds of fields, both well formed,
/// accept the same requests.
pub proof fn lemma_config_accepts(a: PubsubConfigView, b: PubsubConfigView, e: ConfigEventView)
    requires
        a.wf(),
        b.wf(),
        a.names() == b.names(),
        a.kinds() == b.kinds(),
        a.accepts(e),
    ensures
        b.accepts(e),
{
    let name = match e {
        ConfigEventView::ConfigFieldEvent(event) => event.name(),
        ConfigEventView::Focus(Some(n)) => n,
        ConfigEventView::Focus(None) => Seq::empty(),
    };
    if a.has(name) {
        let k = a.index_of(name);
        assert(config_named(a.fields, k, name));
        assert(a.names()[k] == name);
        assert(b.names()[k] == name);
        assert(b.fields.len() == b.names().len());
        assert(config_named(b.fields, k, name));
        lemma_config_index_of(b, k, name);
        assert(a.kinds()[k] == b.kinds()[k]);
    }
}

/// The settings of the connection.
pub struct PubsubConfig {
    fields: Vec<Field>,
    focused: Option<String>,
}

impl View for PubsubConfig {
    type V = PubsubConfigView;

    closed spec fn view(&self) -> PubsubConfigView {
        PubsubConfigView { fields: config_views(self.fields@), focused: view_of(self.focused) }
    }
}

/// The names of the settings differ from one another.
proof fn lemma_config_names_differ()
    ensures
        forall|i: int, j: int|
            0 <= i < j < 4 ==> #[trigger] config_names()[i] != #[trigger] config_names()[j],
{
    reveal_strlit("project_id");
    reveal_strlit("host");
    reveal_strlit("port");
    reveal_strlit("emulator");
    assert("project_id"@[0] != "host"@[0]);
    assert("project_id"@[1] != "port"@[1]);
    assert("project_id"@[0] != "emulator"@[0]);
    assert("host"@[0] != "port"@[0]);
    assert("host"@[0] != "emulator"@[0]);
    assert("port"@[0] != "emulator"@[0]);
}

/// The settings before they are given values: the project identifier, the
/// host and the port as text, and whether the service is an emulator as a
/// choice of yes (`true`) or no (`false`); all at rest, none focused.
pub open spec fn default_config() -> PubsubConfigView {
    PubsubConfigView {
        fields: seq![
            FieldView::Text(fresh_field("project_id"@, "Project ID"@, Seq::empty())),
            FieldView::Text(fresh_field("host"@, "Host"@, Seq::empty())),
            FieldView::Text(fresh_field("port"@, "Port"@, Seq::empty())),
            FieldView::Choices(
                ChoicesView {
                    name: "emulator"@,
                    label: "Emulator"@,
                    value: Seq::empty(),
                    editing: false,
                    chosen: None,
                    highlighted: None,
                    choices: seq![
                        ChoiceView { label: "Yes"@, value: "true"@ },
                        ChoiceView { label: "No"@, value: "false"@ },
                    ],
                },
            ),
        ],
        focused: None,
    }
}

impl Default for PubsubConfig {
    fn default() -> (config: Self)
        ensures
            config@ == default_config(),
            config@.wf(),
    {
        let mut options: Vec<Choice> = Vec::new();
        options.push(Choice { label: "Yes".to_owned(), value: "true".to_owned() });
        options.push(Choice { label: "No".to_owned(), value: "false".to_owned() });
        assert(choice_views(options@) =~= seq![
            ChoiceView { label: "Yes"@, value: "true"@ },
            ChoiceView { label: "No"@, value: "false"@ },
        ]);
        let mut fields: Vec<Field> = Vec::new();
        fields.push(Field::Text(TextField::new("project_id", "Project ID")));
        fields.push(Field::Text(TextField::new("host", "Host")));
        fields.push(Field::Text(TextField::new("port", "Port")));
        fields.push(Field::Choices(Choices::new("emulator", "Emulator", options)));
        let config = PubsubConfig { fields, focused: None };
        proof {
            assert(config@.fields =~= default_config().fields);
            lemma_config_names_differ();
            assert(config@.names() =~= config_names());
            assert forall|i: int, j: int| 0 <= i < j < config@.fields.len() implies (
            #[trigger] config@.fields[i]).name() != (#[trigger] config@.fields[j]).name() by {
                assert(config@.names()[i] == config@.fields[i].name());
                assert(config@.names()[j] == config@.fields[j].name());
                assert(config_names()[i] != config_names()[j]);
            }
        }
        config
    }
}

impl PubsubConfig {
    /// The place of the field that bears `name`, if there is one.
    pub fn position(&self, name: &str) -> (place: Option<usize>)
        ensures
            match place {
                Some(i) => config_named(self@.fields, i as int, name@),
                None => !self@.has(name@),
            },
    {
        let mut i: usize = 0;
        while i < self.fields.len()
            invariant
                i <= self.fields.len(),
                self@.fields.len() == self.fields.len(),
                forall|k: int| 0 <= k < i ==> !config_named(self@.fields, k, name@),
            decreases self.fields.len() - i,
        {
            if str_eq(self.fields[i].name().as_str(), name) {
                return Some(i);
            }
            i += 1;
        }
        None
    }

    /// Whether a field bears `name`.
    pub fn contains(&self, name: &str) -> (r: bool)
        ensures
            r == self@.has(name@),
    {
        self.position(name).is_some()
    }

    /// Number of fields.
    pub fn len(&self) -> (n: usize)
        ensures
            n == self@.fields.len(),
    {
        self.fields.len()
    }

    /// The field at a place of the settings.
    pub fn field_at(&self, i: usize) -> (field: &Field)
        requires
            i < self@.fields.len(),
        ensures
            field@ == self@.fields[i as int],
    {
        &self.fields[i]
    }

    /// The field that bears `name`.
    pub fn field(&self, name: &str) -> (field: &Field)
        requires
            self@.wf(),
            self@.has(name@),
        ensures
            field@ == self@.field(name@),
            field@.wf(),
    {
        let place = self.position(name);
        let i: usize = place.unwrap();
        proof {
            lemma_config_index_of(self@, i as int, name@);
        }
        &self.fields[i]
    }

    /// The name of the focused field.
    pub fn focused(&self) -> (r: &Option<String>)
        ensures
            view_of(*r) == self@.focused,
    {
        &self.focused
    }

    /// Whether the focused field is being edited.
    pub fn is_editing(&self) -> (r: bool)
        requires
            self@.wf(),
        ensures
            r == self@.is_editing(),
    {
        match &self.focused {
            Some(name) => self.field(name.as_str()).is_editing(),
            None => false,
        }
    }

    /// Whether a request can be applied.
    pub fn accepts(&self, e: &ConfigEvent) -> (r: bool)
        requires
            self@.wf(),
        ensures
            r == self@.accepts(e@),
    {
        match e {
            ConfigEvent::Focus(Some(name)) => self.contains(name.as_str()),
            ConfigEvent::Focus(None) => true,
            ConfigEvent::ConfigFieldEvent(FieldEvent::TextFieldEvent(event)) => {
                self.get_text_field(event.name.as_str()).is_some()
            },
            ConfigEvent::ConfigFieldEvent(FieldEvent::ChoicesEvent(event)) => {
                match self.get_choices_field(event.name.as_str()) {
                    Some(field) => match event.event_type {
                        ChoicesEventType::SetChosenIndex(index) => field.in_range(index),
                        _ => true,
                    },
                    None => false,
                }
            },
        }
    }

    /// The value of the field that bears `name`.
    pub fn get(&self, name: &str) -> (value: &String)
        requires
            self@.wf(),
            self@.has(name@),
        ensures
            value@ == self@.get(name@),
    {
        self.field(name).value()
    }

    /// Sets the value of the field that bears `name`.
    pub fn set(&mut self, name: &str, value: String)
        requires
            old(self)@.wf(),
            old(self)@.has(name@),
        ensures
            final(self)@ == old(self)@.set(name@, value@),
            final(self)@.wf(),
            final(self)@.kinds() == old(self)@.kinds(),
    {
        let place = self.position(name);
        let i: usize = place.unwrap();
        proof {
            lemma_config_index_of(self@, i as int, name@);
            if let FieldView::Choices(c) = self@.fields[i as int] {
                lemma_set_value_wf(c, value@);
            }
            lemma_config_with_field(self@, name@, self@.fields[i as int].set_value(value@));
        }
        self.fields[i].set_value(value);
        assert(self@.fields =~= old(self)@.fields.update(
            i as int,
            old(self)@.fields[i as int].set_value(value@),
        ));
    }

    /// The text field that bears `name`, if the field that bears it is one.
    pub fn get_text_field(&self, name: &str) -> (field: Option<&TextField>)
        requires
            self@.wf(),
        ensures
            match field {
                Some(f) => self@.has(name@) && self@.field(name@) == FieldView::Text(f@),
                None => !self@.has(name@) || self@.field(name@) is Choices,
            },
    {
        match self.position(name) {
            Some(i) => {
                proof {
                    lemma_config_index_of(self@, i as int, name@);
                }
                match &self.fields[i] {
                    Field::Text(f) => Some(f),
                    Field::Choices(_) => None,
                }
            },
            None => None,
        }
    }

    /// The choices field that bears `name`, if the field that bears it is
    /// one.
    pub fn get_choices_field(&self, name: &str) -> (field: Option<&Choices>)
        requires
            self@.wf(),
        ensures
            match field {
                Some(f) => self@.has(name@) && self@.field(name@) == FieldView::Choices(f@),
                None => !self@.has(name@) || self@.field(name@) is Text,
            },
    {
        match self.position(name) {
            Some(i) => {
                proof {
                    lemma_config_index_of(self@, i as int, name@);
                }
                match &self.fields[i] {
                    Field::Text(_) => None,
                    Field::Choices(f) => Some(f),
                }
            },
            None => None,
        }
    }
}

/// Gives the settings their first values: no project, the host
/// `localhost`, the port `8065`, and no emulator.
pub fn init_config(state: &mut PubsubConfig)
    requires
        old(state)@.wf(),
    ensures
        final(state)@ == old(state)@.set("project_id"@, ""@).set("host"@, "localhost"@).set(
            "port"@,
            "8065"@,
        ).set("emulator"@, "false"@),
        final(state)@.wf(),
        final(state)@.kinds() == old(state)@.kinds(),
{
    proof {
        lemma_has_config_names(state@);
    }
    state.set("project_id", "".to_owned());
    proof {
        lemma_has_config_names(state@);
    }
    state.set("host", "localhost".to_owned());
    proof {
        lemma_has_config_names(state@);
    }
    state.set("port", "8065".to_owned());
    proof {
        lemma_has_config_names(state@);
    }
    state.set("emulator", "false".to_owned());
}

/// Well-formed settings have a field for each of their names.
pub proof fn lemma_has_config_names(view: PubsubConfigView)
    requires
        view.wf(),
    ensures
        view.fields.len() == 4,
        view.has("project_id"@),
        view.has("host"@),
        view.has("port"@),
        view.has("emulator"@),
{
    assert(view.names().len() == 4);
    assert(view.names()[0] == view.fields[0].name());
    assert(view.names()[1] == view.fields[1].name());
    assert(view.names()[2] == view.fields[2].name());
    assert(view.names()[3] == view.fields[3].name());
    assert(config_named(view.fields, 0, "project_id"@));
    assert(config_named(view.fields, 1, "host"@));
    assert(config_named(view.fields, 2, "port"@));
    assert(config_named(view.fields, 3, "emulator"@));
}

/// Applies a request to the settings. The result is the follow-up event,
/// if any.
pub fn on_config_event(state: &mut PubsubConfig, e: ConfigEvent) -> (out: Option<PubsubEvent>)
    requires
        old(state)@.wf(),
        old(state)@.accepts(e@),
    ensures
        final(state)@ == old(state)@.apply(e@),
        final(state)@.wf(),
        final(state)@.kinds() == old(state)@.kinds(),
        view_of(out) == old(state)@.follow_up(e@),
        out matches Some(PubsubEvent::Config(next)) ==> final(state)@.accepts(next@),
{
    match e {
        ConfigEvent::ConfigFieldEvent(event) => on_config_field_event(state, event),
        ConfigEvent::Focus(name) => {
            state.focused = name;
            proof {
                if let Some(n) = state@.focused {
                    assert(config_named(state@.fields, old(state)@.index_of(n), n));
                }
                assert(state@.names() =~= old(state)@.names());
                assert(state@.kinds() =~= old(state)@.kinds());
            }
            None
        },
    }
}

/// Hands an event to the field it names, or acts on the report that a
/// value changed.
fn on_config_field_event(state: &mut PubsubConfig, e: FieldEvent) -> (out: Option<PubsubEvent>)
    requires
        old(state)@.wf(),
        old(state)@.accepts_field_event(e@),
    ensures
        final(state)@ == old(state)@.apply(ConfigEventView::ConfigFieldEvent(e@)),
        final(state)@.wf(),
        final(state)@.kinds() == old(state)@.kinds(),
        view_of(out) == old(state)@.follow_up(ConfigEventView::ConfigFieldEvent(e@)),
        out matches Some(PubsubEvent::Config(next)) ==> final(state)@.accepts(next@),
{
    match e {
        FieldEvent::TextFieldEvent(event) => {
            if matches!(event.event_type, TextFieldEventType::ValueChanged) {
                return on_config_value_changed(state, &event.name);
            }
            let place = state.position(event.name.as_str());
            let i: usize = place.unwrap();
            proof {
                lemma_config_index_of(state@, i as int, event@.name);
                lemma_config_with_field(state@, event@.name, state@.field_after(e@));
            }
            let next = match &mut state.fields[i] {
                Field::Text(field) => text_field::on_event(field, event.event_type),
                Field::Choices(_) => None,
            };
            assert(state@.fields =~= old(state)@.fields.update(
                i as int,
                old(state)@.field_after(e@),
            ));
            match next {
                Some(n) => {
                    proof {
                        assert(config_named(state@.fields, i as int, n@.name));
                        lemma_config_index_of(state@, i as int, n@.name);
                    }
                    Some(
                        PubsubEvent::Config(
                            ConfigEvent::ConfigFieldEvent(FieldEvent::TextFieldEvent(n)),
                        ),
                    )
                },
                None => None,
            }
        },
        FieldEvent::ChoicesEvent(event) => {
            if matches!(event.event_type, ChoicesEventType::ValueChanged) {
                return on_config_value_changed(state, &event.name);
            }
            let place = state.position(event.name.as_str());
            let i: usize = place.unwrap();
            proof {
                lemma_config_index_of(state@, i as int, event@.name);
                lemma_config_with_field(state@, event@.name, state@.field_after(e@));
            }
            let next = match &mut state.fields[i] {
                Field::Text(_) => None,
                Field::Choices(field) => choices::on_event(field, event.event_type),
            };
            assert(state@.fields =~= old(state)@.fields.update(
                i as int,
                old(state)@.field_after(e@),
            ));
            match next {
                Some(n) => {
                    proof {
                        assert(config_named(state@.fields, i as int, n@.name));
                        lemma_config_index_of(state@, i as int, n@.name);
                    }
                    Some(
                        PubsubEvent::Config(
                            ConfigEvent::ConfigFieldEvent(FieldEvent::ChoicesEvent(n)),
                        ),
                    )
                },
                None => None,
            }
        },
    }
}

/// A changed project identifier asks for the project to be changed.
fn on_config_value_changed(state: &PubsubConfig, name: &String) -> (out: Option<PubsubEvent>)
    requires
        state@.wf(),
        state@.has(name@),
    ensures
        view_of(out) == if name@ == "project_id"@ {
            Some(PubsubEventView::ChangeProjectId(state@.get(name@)))
        } else {
            None
        },
{
    if str_eq(name.as_str(), "project_id") {
        Some(set_project_id(state.get(name.as_str()).clone()))
    } else {
        None
    }
}

/// Offers a key to the settings: first to the focused field, then to the
/// settings themselves, which bind the arrows and Escape.
pub fn on_key(state: &PubsubConfig, key: KeyEvent) -> (out: InputHandled<ConfigEvent>)
    requires
        state@.wf(),
    ensures
        out@ == state@.on_key(key),
        out matches InputHandled::Handled(Some(e)) ==> state@.accepts(e@),
{
    let text_handled = on_text_field_key(state, key);
    if text_handled.is_handled() {
        return text_handled;
    }
    match key.code {
        KeyCode::Up => on_arrow_key(state, true),
        KeyCode::Down => on_arrow_key(state, false),
        KeyCode::Esc => {
            if state.focused.is_some() {
                handled(unfocus())
            } else {
                not_handled()
            }
        },
        _ => not_handled(),
    }
}

/// Offers a key to the focused field.
fn on_text_field_key(state: &PubsubConfig, key: KeyEvent) -> (out: InputHandled<ConfigEvent>)
    requires
        state@.wf(),
    ensures
        out@ == state@.field_key(key),
        out matches InputHandled::Handled(Some(e)) ==> state@.accepts(e@),
{
    match &state.focused {
        Some(name) => {
            let field = state.field(name.as_str());
            match field {
                Field::Text(f) => match text_field::on_key(f, key) {
                    InputHandled::Handled(Some(event)) => handled(
                        ConfigEvent::ConfigFieldEvent(FieldEvent::TextFieldEvent(event)),
                    ),
                    InputHandled::Handled(None) => InputHandled::Handled(None),
                    InputHandled::NotHandled => not_handled(),
                },
                Field::Choices(f) => match choices::on_key(f, key) {
                    InputHandled::Handled(Some(event)) => handled(
                        ConfigEvent::ConfigFieldEvent(FieldEvent::ChoicesEvent(event)),
                    ),
                    InputHandled::Handled(None) => InputHandled::Handled(None),
                    InputHandled::NotHandled => not_handled(),
                },
            }
        },
        None => not_handled(),
    }
}

/// Moves the focus to the neighbour of the focused field, or to the first
/// field where none is focused.
fn on_arrow_key(state: &PubsubConfig, up: bool) -> (out: InputHandled<ConfigEvent>)
    requires
        state@.wf(),
    ensures
        out@ == match state@.arrow_target(up) {
            Some(name) => InputHandled::Handled(Some(ConfigEventView::Focus(Some(name)))),
            None => InputHandled::NotHandled,
        },
        out matches InputHandled::Handled(Some(e)) ==> state@.accepts(e@),
{
    let len: usize = state.fields.len();
    if len == 0 {
        return not_handled();
    }
    let target: usize = match &state.focused {
        None => 0,
        Some(name) => {
            let place = state.position(name.as_str());
            let i: usize = place.unwrap();
            proof {
                lemma_config_index_of(state@, i as int, name@);
            }
            if up {
                if i == 0 {
                    len - 1
                } else {
                    i - 1
                }
            } else {
                (i + 1) % len
            }
        },
    };
    assert(config_named(state@.fields, target as int, state@.fields[target as int].name()));
    handled(focus(state.fields[target].name().as_str()))
}

/// The link to the service as plain values.
pub struct PubsubView {
    pub config: PubsubConfigView,
    pub status: PubsubStatusView,
    /// The project in use.
    pub project_id: Option<Seq<char>>,
    pub topics: TopicsView,
    /// Whether a connection was made and can be used.
    pub client_ready: bool,
}

impl PubsubView {
    /// The same state with another thing to tell the user.
    pub open spec fn with_info(self, info: Seq<char>) -> PubsubView {
        PubsubView { status: PubsubStatusView { info: Some(info), ..self.status }, ..self }
    }

    /// Whether an event can be applied.
    pub open spec fn accepts(self, e: PubsubEventView) -> bool {
        e matches PubsubEventView::Config(c) ==> self.config.accepts(c)
    }

    /// The state after an event.
    pub open spec fn apply(self, e: PubsubEventView) -> PubsubView {
        match e {
            PubsubEventView::Connect => if self.project_id is None {
                self.with_info("Project ID is empty"@)
            } else {
                self
            },
            PubsubEventView::Connected => PubsubView {
                client_ready: true,
                status: PubsubStatusView {
                    connection: ConnectionStatus::Connected,
                    info: Some("Connected to Pub/Sub"@),
                    ..self.status
                },
                ..self
            },
            PubsubEventView::ConnectFailed(reason) => PubsubView {
                client_ready: false,
                status: PubsubStatusView {
                    connection: ConnectionStatus::Disconnected,
                    info: Some("Failed to connect: "@ + reason),
                    ..self.status
                },
                ..self
            },
            PubsubEventView::ChangeProjectId(id) => if self.project_id == Some(id) {
                self.with_info("Already connected to this project"@)
            } else {
                PubsubView {
                    project_id: Some(id),
                    status: PubsubStatusView {
                        connection: ConnectionStatus::Connecting,
                        ..self.status
                    },
                    ..self
                }
            },
            PubsubEventView::GetTopics => if self.client_ready {
                self
            } else {
                self.with_info("Not connected to Pub/Sub"@)
            },
            PubsubEventView::GotTopics(list) => PubsubView {
                status: PubsubStatusView { topics: list.len() as usize, ..self.status },
                topics: self.topics.set_source(list),
                ..self
            },
            PubsubEventView::GetTopicsFailed(reason) => PubsubView {
                status: PubsubStatusView {
                    connection: ConnectionStatus::Disconnected,
                    info: Some("Failed to get topics: "@ + reason),
                    ..self.status
                },
                ..self
            },
            PubsubEventView::Config(c) => PubsubView { config: self.config.apply(c), ..self },
            PubsubEventView::Topics(t) => PubsubView { topics: self.topics.apply(t), ..self },
        }
    }

    /// What handling an event asks for.
    pub open spec fn reaction(self, e: PubsubEventView) -> ReactionView<PubsubEventView> {
        match e {
            PubsubEventView::Connect => match self.project_id {
                Some(id) => ReactionView::Run(CommandView::Connect(id)),
                None => ReactionView::Nothing,
            },
            PubsubEventView::ChangeProjectId(id) => if self.project_id == Some(id) {
                ReactionView::Nothing
            } else {
                ReactionView::FollowUp(PubsubEventView::Connect)
            },
            PubsubEventView::GetTopics => if self.client_ready {
                ReactionView::Run(CommandView::FetchTopics)
            } else {
                ReactionView::Nothing
            },
            PubsubEventView::Config(c) => match self.config.follow_up(c) {
                Some(next) => ReactionView::FollowUp(next),
                None => ReactionView::Nothing,
            },
            PubsubEventView::Topics(t) => if t is Refresh {
                ReactionView::FollowUp(PubsubEventView::GetTopics)
            } else {
                ReactionView::Nothing
            },
            _ => ReactionView::Nothing,
        }
    }
}

/// The link before anything happened: no connection, no project, no
/// topics, and the settings without values.
pub open spec fn default_pubsub() -> PubsubView {
    PubsubView {
        config: default_config(),
        status: PubsubStatusView {
            connection: ConnectionStatus::Disconnected,
            topics: 0,
            info: None,
        },
        project_id: None,
        topics: empty_topics(),
        client_ready: false,
    }
}

/// The link to the service.
pub struct Pubsub {
    config: PubsubConfig,
    status: PubsubStatus,
    project_id: Option<String>,
    topics: Topics,
    client_ready: bool,
}

impl View for Pubsub {
    type V = PubsubView;

    closed spec fn view(&self) -> PubsubView {
        PubsubView {
            config: self.config@,
            status: self.status@,
            project_id: view_of(self.project_id),
            topics: self.topics@,
            client_ready: self.client_ready,
        }
    }
}

impl Pubsub {
    /// The settings and the topic list are well formed.
    pub closed spec fn wf(&self) -> bool {
        self.config@.wf() && self.topics.wf()
    }

    /// What well-formedness says of the state as plain values.
    pub proof fn lemma_wf(&self)
        requires
            self.wf(),
        ensures
            self@.config.wf(),
            self@.topics.wf(),
    {
        self.topics.lemma_wf();
    }

    /// No connection, no project, no topics, and the settings without
    /// values.
    pub fn default() -> (state: Pubsub)
        ensures
            state.wf(),
            state@ == default_pubsub(),
    {
        Pubsub {
            config: <PubsubConfig as Default>::default(),
            status: <PubsubStatus as Default>::default(),
            project_id: None,
            topics: Topics::new(),
            client_ready: false,
        }
    }

    pub fn config(&self) -> (r: &PubsubConfig)
        requires
            self.wf(),
        ensures
            r@ == self@.config,
            r@.wf(),
    {
        &self.config
    }

    pub fn status(&self) -> (r: &PubsubStatus)
        ensures
            r@ == self@.status,
    {
        &self.status
    }

    /// The project in use.
    pub fn project_id(&self) -> (r: &Option<String>)
        ensures
            view_of(*r) == self@.project_id,
    {
        &self.project_id
    }

    pub fn topics(&self) -> (r: &Topics)
        requires
            self.wf(),
        ensures
            r@ == self@.topics,
            r.wf(),
    {
        &self.topics
    }

    /// Whether a connection was made and can be used.
    pub fn client_ready(&self) -> (r: bool)
        ensures
            r == self@.client_ready,
    {
        self.client_ready
    }

    /// Whether an event can be applied.
    pub fn accepts(&self, e: &PubsubEvent) -> (r: bool)
        requires
            self.wf(),
        ensures
            r == self@.accepts(e@),
    {
        match e {
            PubsubEvent::Config(event) => self.config.accepts(event),
            _ => true,
        }
    }

    /// Gives the settings their first values.
    pub fn init(&mut self)
        requires
            old(self).wf(),
        ensures
            final(self).wf(),
            final(self)@ == (PubsubView {
                config: old(self)@.config.set("project_id"@, ""@).set("host"@, "localhost"@).set(
                    "port"@,
                    "8065"@,
                ).set("emulator"@, "false"@),
                ..old(self)@
            }),
            final(self)@.config.kinds() == old(self)@.config.kinds(),
    {
        init_config(&mut self.config);
    }
}

/// The text of a failure: what failed, and the reason given.
fn failure_text(what: &str, reason: &String) -> (text: String)
    ensures
        text@ == what@ + reason@,
{
    let mut text = what.to_owned();
    text.append(reason.as_str());
    text
}

/// Handles an event of the link to the service.
pub fn on_event(state: &mut Pubsub, e: PubsubEvent) -> (out: Reaction<PubsubEvent>)
    requires
        old(state).wf(),
        old(state)@.accepts(e@),
    ensures
        final(state).wf(),
        final(state)@ == old(state)@.apply(e@),
        final(state)@.config.kinds() == old(state)@.config.kinds(),
        out@ == old(state)@.reaction(e@),
        out matches Reaction::FollowUp(next) ==> final(state)@.accepts(next@),
{
    match e {
        PubsubEvent::Connect => on_connect_to_pubsub(state),
        PubsubEvent::Connected => {
            state.client_ready = true;
            state.status.connection = ConnectionStatus::Connected;
            state.status.info = Some("Connected to Pub/Sub".to_owned());
            Reaction::Nothing
        },
        PubsubEvent::ConnectFailed(reason) => {
            state.client_ready = false;
            state.status.connection = ConnectionStatus::Disconnected;
            state.status.info = Some(failure_text("Failed to connect: ", &reason));
            Reaction::Nothing
        },
        PubsubEvent::ChangeProjectId(id) => on_change_project_id(state, id),
        PubsubEvent::GetTopics => on_get_topics(state),
        PubsubEvent::GotTopics(list) => {
            state.status.topics = list.len();
            state.topics.set_topics(list);
            Reaction::Nothing
        },
        PubsubEvent::GetTopicsFailed(reason) => {
            state.status.connection = ConnectionStatus::Disconnected;
            state.status.info = Some(failure_text("Failed to get topics: ", &reason));
            Reaction::Nothing
        },
        PubsubEvent::Config(event) => {
            match on_config_event(&mut state.config, event) {
                Some(next) => Reaction::FollowUp(next),
                None => Reaction::Nothing,
            }
        },
        PubsubEvent::Topics(event) => {
            let refresh = matches!(event, TopicsEvent::Refresh);
            topics::on_event(&mut state.topics, event);
            if refresh {
                Reaction::FollowUp(PubsubEvent::GetTopics)
            } else {
                Reaction::Nothing
            }
        },
    }
}

/// A change of project: the project is taken into use and a connection is
/// asked for, unless the project is in use already.
fn on_change_project_id(state: &mut Pubsub, id: String) -> (out: Reaction<PubsubEvent>)
    requires
        old(state).wf(),
    ensures
        final(state).wf(),
        final(state)@ == old(state)@.apply(PubsubEventView::ChangeProjectId(id@)),
        out@ == old(state)@.reaction(PubsubEventView::ChangeProjectId(id@)),
{
    let same = match &state.project_id {
        Some(current) => *current == id,
        None => false,
    };
    if same {
        state.status.info = Some("Already connected to this project".to_owned());
        return Reaction::Nothing;
    }
    state.project_id = Some(id);
    state.status.connection = ConnectionStatus::Connecting;
    Reaction::FollowUp(PubsubEvent::Connect)
}

/// A request to connect: the connection is asked for where a project is in
/// use, and the user is told where none is.
fn on_connect_to_pubsub(state: &mut Pubsub) -> (out: Reaction<PubsubEvent>)
    requires
        old(state).wf(),
    ensures
        final(state).wf(),
        final(state)@ == old(state)@.apply(PubsubEventView::Connect),
        out@ == old(state)@.reaction(PubsubEventView::Connect),
{
    match &state.project_id {
        Some(id) => Reaction::Run(Command::Connect(id.clone())),
        None => {
            state.status.info = Some("Project ID is empty".to_owned());
            Reaction::Nothing
        },
    }
}

/// A request for the topics: they are asked for where a connection stands,
/// and the user is told where none does.
fn on_get_topics(state: &mut Pubsub) -> (out: Reaction<PubsubEvent>)
    requires
        old(state).wf(),
    ensures
        final(state).wf(),
        final(state)@ == old(state)@.apply(PubsubEventView::GetTopics),
        out@ == old(state)@.reaction(PubsubEventView::GetTopics),
{
    if state.client_ready {
        Reaction::Run(Command::FetchTopics)
    } else {
        state.status.info = Some("Not connected to Pub/Sub".to_owned());
        Reaction::Nothing
    }
}

} // verus!
