//! The topic list: the topics as the service last reported them, and the
//! part of them that is shown, filtered by a live filter text and sorted by
//! name.

use crate::input::{handled, handled_empty, not_handled, InputHandled, KeyCode, KeyEvent};
use crate::text::{
    chars_of, contains_chars, is_substring, lemma_lex_le_antisymmetric, lemma_lex_le_reflexive,
    lemma_lex_le_total, lemma_lex_le_transitive, lex_le, lowercase, matches_filter, str_le,
    string_of, to_lowercase,
};
use vstd::prelude::*;

verus! {

/// A topic of the message service.
#[derive(Debug)]
pub struct TopicInfo {
    pub name: String,
}

impl View for TopicInfo {
    type V = Seq<char>;

    open spec fn view(&self) -> Seq<char> {
        self.name@
    }
}

impl Clone for TopicInfo {
    fn clone(&self) -> (out: Self)
        ensures
            out@ == self@,
    {
        TopicInfo { name: self.name.clone() }
    }
}

/// A request to the topic list.
#[derive(Debug)]
pub enum TopicsEvent {
    /// Select the entry at this place of the shown list, or the last entry
    /// where the list is shorter.
    Select(usize),
    Deselect,
    /// Turn filtering on, with this filter text.
    Filter(String),
    /// Turn filtering off and forget the filter text.
    ClearFilter,
    /// The user asks for a fresh list. The list itself does nothing about
    /// it: the request is for its owner.
    Refresh,
}

/// A request to the topic list as plain values.
pub enum TopicsEventView {
    Select(usize),
    Deselect,
    Filter(Seq<char>),
    ClearFilter,
    Refresh,
}

impl View for TopicsEvent {
    type V = TopicsEventView;

    open spec fn view(&self) -> TopicsEventView {
        match self {
            TopicsEvent::Select(i) => TopicsEventView::Select(*i),
            TopicsEvent::Deselect => TopicsEventView::Deselect,
            TopicsEvent::Filter(text) => TopicsEventView::Filter(text@),
            TopicsEvent::ClearFilter => TopicsEventView::ClearFilter,
            TopicsEvent::Refresh => TopicsEventView::Refresh,
        }
    }
}

impl Clone for TopicsEvent {
    fn clone(&self) -> (out: Self)
        ensures
            out@ == self@,
    {
        match self {
            TopicsEvent::Select(i) => TopicsEvent::Select(*i),
            TopicsEvent::Deselect => TopicsEvent::Deselect,
            TopicsEvent::Filter(text) => TopicsEvent::Filter(text.clone()),
            TopicsEvent::ClearFilter => TopicsEvent::ClearFilter,
            TopicsEvent::Refresh => TopicsEvent::Refresh,
        }
    }
}

/// The way a selection moves through the shown list.
#[derive(Clone, Copy, Debug, PartialEq, Eq, Structural)]
pub enum SelectionDirection {
    Up,
    Down,
}

/// The names of a list of topics, in order.
pub open spec fn names(items: Seq<TopicInfo>) -> Seq<Seq<char>> {
    items.map_values(|t: TopicInfo| t@)
}

/// The character sequences that a list of character vectors holds, in order.
pub open spec fn texts(items: Seq<Vec<char>>) -> Seq<Seq<char>> {
    items.map_values(|v: Vec<char>| v@)
}

/// Those of `names` whose folded form holds `needle`, in their order.
/// `folded` gives the folded form of each name, place by place.
pub open spec fn matching(
    names: Seq<Seq<char>>,
    folded: Seq<Seq<char>>,
    needle: Seq<char>,
) -> Seq<Seq<char>>
    decreases names.len(),
{
    if names.len() == 0 || folded.len() != names.len() {
        Seq::empty()
    } else {
        let rest = matching(names.drop_last(), folded.drop_last(), needle);
        if is_substring(needle, folded.last()) {
            rest.push(names.last())
        } else {
            rest
        }
    }
}

/// The names that match a filter text, whatever the case of either.
pub open spec fn filter_names(source: Seq<Seq<char>>, text: Seq<char>) -> Seq<Seq<char>> {
    matching(source, source.map_values(|n: Seq<char>| lowercase(n)), lowercase(text))
}

/// Where a name goes into a sorted list: behind the last entry that does not
/// come after it, so that equal names keep the order in which they came.
pub open spec fn insert_point(sorted: Seq<Seq<char>>, name: Seq<char>) -> int
    decreases sorted.len(),
{
    if sorted.len() == 0 {
        0
    } else if lex_le(sorted.last(), name) {
        sorted.len() as int
    } else {
        insert_point(sorted.drop_last(), name)
    }
}

/// The names in ascending order. Names are taken one by one in the order
/// given and each goes to its `insert_point`.
pub open spec fn sort_names(s: Seq<Seq<char>>) -> Seq<Seq<char>>
    decreases s.len(),
{
    if s.len() == 0 {
        Seq::empty()
    } else {
        let sorted = sort_names(s.drop_last());
        sorted.insert(insert_point(sorted, s.last()), s.last())
    }
}

/// No name comes before an earlier one.
pub open spec fn is_sorted(s: Seq<Seq<char>>) -> bool {
    forall|i: int, j: int| 0 <= i < j < s.len() ==> lex_le(s[i], s[j])
}

/// What the list shows: the source sorted, and filtered first where
/// filtering is on and the filter text is not empty.
pub open spec fn visible_of(source: Seq<Seq<char>>, text: Seq<char>, active: bool) -> Seq<
    Seq<char>,
> {
    if active && text.len() > 0 {
        sort_names(filter_names(source, text))
    } else {
        sort_names(source)
    }
}

/// A selection brought back into a list of `len` entries: a selection past
/// the end goes to the last entry, and an empty list has none.
pub open spec fn clamp_selection(selected: Option<usize>, len: nat) -> Option<usize> {
    match selected {
        Some(i) => if i < len {
            Some(i)
        } else if len == 0 {
            None
        } else {
            Some((len - 1) as usize)
        },
        None => None,
    }
}

/// A selection moved by one entry through a list of `len` entries. It wraps
/// at both ends; with nothing selected, down goes to the first entry and up
/// to the last. An empty list has no selection.
pub open spec fn move_selected(
    selected: Option<usize>,
    len: nat,
    direction: SelectionDirection,
) -> Option<usize> {
    if len == 0 {
        None
    } else {
        match (clamp_selection(selected, len), direction) {
            (None, SelectionDirection::Down) => Some(0),
            (None, SelectionDirection::Up) => Some((len - 1) as usize),
            (Some(i), SelectionDirection::Down) => if i + 1 == len {
                Some(0)
            } else {
                Some((i + 1) as usize)
            },
            (Some(i), SelectionDirection::Up) => if i == 0 {
                Some((len - 1) as usize)
            } else {
                Some((i - 1) as usize)
            },
        }
    }
}

/// The empty list with filtering off.
pub open spec fn empty_topics() -> TopicsView {
    TopicsView {
        source: Seq::empty(),
        filter_text: Seq::empty(),
        filter_active: false,
        selected: None,
    }
}

/// The topic list as plain values. What is shown is not stored: it follows
/// from the source, the filter text and whether filtering is on.
pub struct TopicsView {
    pub source: Seq<Seq<char>>,
    pub filter_text: Seq<char>,
    pub filter_active: bool,
    pub selected: Option<usize>,
}

impl TopicsView {
    /// The names shown.
    pub open spec fn visible(self) -> Seq<Seq<char>> {
        visible_of(self.source, self.filter_text, self.filter_active)
    }

    /// A selection points at a shown entry.
    pub open spec fn wf(self) -> bool {
        self.selected matches Some(i) ==> i < self.visible().len()
    }

    /// The same list with its selection brought back into what is shown.
    pub open spec fn clamped(self) -> TopicsView {
        TopicsView { selected: clamp_selection(self.selected, self.visible().len()), ..self }
    }

    /// Replaces the source; nothing is selected afterwards.
    pub open spec fn set_source(self, source: Seq<Seq<char>>) -> TopicsView {
        TopicsView { source, selected: None, ..self }
    }

    /// Replaces the filter text and brings the selection back into what is
    /// then shown.
    pub open spec fn set_filter_text(self, text: Seq<char>) -> TopicsView {
        (TopicsView { filter_text: text, ..self }).clamped()
    }

    /// Turns filtering on or off. Turning it off forgets the filter text.
    pub open spec fn toggle_filter(self, active: bool) -> TopicsView {
        (TopicsView {
            filter_active: active,
            filter_text: if active {
                self.filter_text
            } else {
                Seq::empty()
            },
            ..self
        }).clamped()
    }

    /// Moves the selection by one entry, wrapping at both ends.
    pub open spec fn move_selection(self, direction: SelectionDirection) -> TopicsView {
        TopicsView {
            selected: move_selected(self.selected, self.visible().len(), direction),
            ..self
        }
    }

    /// Selects the entry at `index`, or the last entry where the list is
    /// shorter.
    pub open spec fn select(self, index: usize) -> TopicsView {
        TopicsView { selected: clamp_selection(Some(index), self.visible().len()), ..self }
    }

    /// The list after a request.
    pub open spec fn apply(self, e: TopicsEventView) -> TopicsView {
        match e {
            TopicsEventView::Select(i) => self.select(i),
            TopicsEventView::Deselect => TopicsView { selected: None, ..self },
            TopicsEventView::Filter(text) => self.toggle_filter(true).set_filter_text(text),
            TopicsEventView::ClearFilter => self.toggle_filter(false),
            TopicsEventView::Refresh => self,
        }
    }

    /// What a key that moves the selection asks for. With nothing shown
    /// the key is taken and asks for nothing.
    pub open spec fn selection_key(self, direction: SelectionDirection) -> InputHandled<
        TopicsEventView,
    > {
        match move_selected(self.selected, self.visible().len(), direction) {
            Some(i) => InputHandled::Handled(Some(TopicsEventView::Select(i))),
            None => InputHandled::Handled(None),
        }
    }

    /// What a key means to the list. While filtering is on, plain
    /// characters and Backspace edit the filter text and Escape turns
    /// filtering off; otherwise `/` turns filtering on, `j` and `k` move the
    /// selection and `r` asks for a fresh list. The arrows move the
    /// selection in both modes.
    pub open spec fn on_key(self, key: KeyEvent) -> InputHandled<TopicsEventView> {
        match key.code {
            KeyCode::Down => self.selection_key(SelectionDirection::Down),
            KeyCode::Up => self.selection_key(SelectionDirection::Up),
            KeyCode::Esc => if self.filter_active {
                InputHandled::Handled(Some(TopicsEventView::ClearFilter))
            } else {
                InputHandled::NotHandled
            },
            KeyCode::Backspace => if !self.filter_active {
                InputHandled::NotHandled
            } else if self.filter_text.len() == 0 {
                InputHandled::Handled(None)
            } else {
                InputHandled::Handled(Some(TopicsEventView::Filter(self.filter_text.drop_last())))
            },
            KeyCode::Char(c) => if !key.modifiers.is_empty() {
                InputHandled::NotHandled
            } else if self.filter_active {
                InputHandled::Handled(Some(TopicsEventView::Filter(self.filter_text.push(c))))
            } else if c == '/' {
                InputHandled::Handled(Some(TopicsEventView::Filter(self.filter_text)))
            } else if c == 'j' {
                self.selection_key(SelectionDirection::Down)
            } else if c == 'k' {
                self.selection_key(SelectionDirection::Up)
            } else if c == 'r' {
                InputHandled::Handled(Some(TopicsEventView::Refresh))
            } else {
                InputHandled::NotHandled
            },
            _ => InputHandled::NotHandled,
        }
    }
}

/// Whether the name of one topic comes no later than that of another.
fn name_le(a: &TopicInfo, b: &TopicInfo) -> (r: bool)
    ensures
        r == lex_le(a@, b@),
{
    str_le(a.name.as_str(), b.name.as_str())
}

/// A copy of a list of topics.
pub fn copy_topics(items: &Vec<TopicInfo>) -> (out: Vec<TopicInfo>)
    ensures
        names(out@) == names(items@),
{
    let mut out: Vec<TopicInfo> = Vec::new();
    let mut i: usize = 0;
    while i < items.len()
        invariant
            i <= items.len(),
            out.len() == i,
            forall|k: int| 0 <= k < i ==> out@[k]@ == items@[k]@,
        decreases items.len() - i,
    {
        out.push(items[i].clone());
        i += 1;
    }
    assert(names(out@) =~= names(items@));
    out
}

/// The folded form of each name: its characters in lower case.
fn fold_names(source: &Vec<TopicInfo>) -> (folded: Vec<Vec<char>>)
    ensures
        texts(folded@) == names(source@).map_values(|n: Seq<char>| lowercase(n)),
{
    let mut folded: Vec<Vec<char>> = Vec::new();
    let mut i: usize = 0;
    while i < source.len()
        invariant
            i <= source.len(),
            folded.len() == i,
            forall|k: int| 0 <= k < i ==> folded@[k]@ == lowercase(source@[k]@),
        decreases source.len() - i,
    {
        let lower = to_lowercase(source[i].name.as_str());
        folded.push(chars_of(lower.as_str()));
        i += 1;
    }
    assert(texts(folded@) =~= names(source@).map_values(|n: Seq<char>| lowercase(n)));
    folded
}

/// The topics whose folded name holds `needle`, in their order. `folded`
/// gives the folded name of each topic, place by place; where it has another
/// length than `source`, nothing is selected.
pub fn select_matching(
    source: &Vec<TopicInfo>,
    folded: &Vec<Vec<char>>,
    needle: &Vec<char>,
) -> (out: Vec<TopicInfo>)
    ensures
        names(out@) == matching(names(source@), texts(folded@), needle@),
{
    let mut out: Vec<TopicInfo> = Vec::new();
    if folded.len() != source.len() {
        return out;
    }
    let mut i: usize = 0;
    while i < source.len()
        invariant
            i <= source.len(),
            folded.len() == source.len(),
            names(out@) == matching(
                names(source@).take(i as int),
                texts(folded@).take(i as int),
                needle@,
            ),
        decreases source.len() - i,
    {
        proof {
            let n1 = names(source@).take(i + 1);
            let f1 = texts(folded@).take(i + 1);
            assert(n1.drop_last() =~= names(source@).take(i as int));
            assert(f1.drop_last() =~= texts(folded@).take(i as int));
            assert(n1.last() == source@[i as int]@);
            assert(f1.last() == folded@[i as int]@);
        }
        if contains_chars(&folded[i], needle) {
            out.push(source[i].clone());
            assert(names(out@) =~= matching(
                names(source@).take(i as int),
                texts(folded@).take(i as int),
                needle@,
            ).push(source@[i as int]@));
        }
        i += 1;
    }
    assert(names(source@).take(source.len() as int) =~= names(source@));
    assert(texts(folded@).take(source.len() as int) =~= texts(folded@));
    out
}

/// The topics in ascending order of their names; topics of one name keep
/// their order.
pub fn sort_by_name(items: &Vec<TopicInfo>) -> (out: Vec<TopicInfo>)
    ensures
        names(out@) == sort_names(names(items@)),
{
    let mut out: Vec<TopicInfo> = Vec::new();
    let mut i: usize = 0;
    while i < items.len()
        invariant
            i <= items.len(),
            names(out@) == sort_names(names(items@).take(i as int)),
        decreases items.len() - i,
    {
        let item = items[i].clone();
        let mut at: usize = out.len();
        assert(names(out@).take(at as int) =~= names(out@));
        while at > 0 && !name_le(&out[at - 1], &item)
            invariant
                at <= out.len(),
                insert_point(names(out@), item@) == insert_point(
                    names(out@).take(at as int),
                    item@,
                ),
            decreases at,
        {
            proof {
                let head = names(out@).take(at as int);
                assert(head.last() == out@[at - 1]@);
                assert(head.drop_last() =~= names(out@).take(at - 1));
            }
            at -= 1;
        }
        proof {
            let head = names(out@).take(at as int);
            if at > 0 {
                assert(head.last() == out@[at - 1]@);
            }
            assert(insert_point(head, item@) == at);
            let upto = names(items@).take(i + 1);
            assert(upto.drop_last() =~= names(items@).take(i as int));
            assert(upto.last() == items@[i as int]@);
        }
        let ghost before = names(out@);
        out.insert(at, item);
        assert(names(out@) =~= before.insert(at as int, item@));
        i += 1;
    }
    assert(names(items@).take(items.len() as int) =~= names(items@));
    out
}

/// The topic list.
pub struct Topics {
    all: Vec<TopicInfo>,
    visible: Vec<TopicInfo>,
    filter_text: String,
    filter_active: bool,
    selected: Option<usize>,
}

impl View for Topics {
    type V = TopicsView;

    closed spec fn view(&self) -> TopicsView {
        TopicsView {
            source: names(self.all@),
            filter_text: self.filter_text@,
            filter_active: self.filter_active,
            selected: self.selected,
        }
    }
}

impl Topics {
    /// The list holds what its source, filter text and filter switch give,
    /// and a selection points at a shown entry.
    pub closed spec fn wf(&self) -> bool {
        &&& names(self.visible@) == self@.visible()
        &&& self@.wf()
    }

    /// What well-formedness says of the list as plain values.
    pub proof fn lemma_wf(&self)
        requires
            self.wf(),
        ensures
            self@.wf(),
    {
    }

    /// An empty list with filtering off.
    pub fn new() -> (topics: Topics)
        ensures
            topics.wf(),
            topics@ == empty_topics(),
    {
        let topics = Topics {
            all: Vec::new(),
            visible: Vec::new(),
            filter_text: String::new(),
            filter_active: false,
            selected: None,
        };
        assert(names(topics.all@) =~= Seq::empty());
        assert(names(topics.visible@) =~= Seq::empty());
        topics
    }

    /// Replaces the source with what the service reported.
    pub fn set_topics(&mut self, topics: Vec<TopicInfo>)
        ensures
            final(self).wf(),
            final(self)@ == old(self)@.set_source(names(topics@)),
    {
        self.all = topics;
        self.selected = None;
        self.filter_and_sort_topics();
    }

    /// Replaces the filter text.
    pub fn set_filter_text(&mut self, text: String)
        ensures
            final(self).wf(),
            final(self)@ == old(self)@.set_filter_text(text@),
    {
        self.filter_text = text;
        self.filter_and_sort_topics();
        self.update_selected_topic_index();
    }

    /// Turns filtering on or off.
    pub fn toggle_filter(&mut self, active: bool)
        ensures
            final(self).wf(),
            final(self)@ == old(self)@.toggle_filter(active),
    {
        self.filter_active = active;
        if !active {
            self.filter_text = String::new();
        }
        self.filter_and_sort_topics();
        self.update_selected_topic_index();
    }

    /// Moves the selection by one entry.
    pub fn move_selection(&mut self, direction: SelectionDirection)
        requires
            old(self).wf(),
        ensures
            final(self).wf(),
            final(self)@ == old(self)@.move_selection(direction),
    {
        self.selected = moved(self.selected, self.visible.len(), direction);
    }

    /// Selects the entry at `index`, or the last entry where the list is
    /// shorter.
    pub fn select(&mut self, index: usize)
        requires
            old(self).wf(),
        ensures
            final(self).wf(),
            final(self)@ == old(self)@.select(index),
    {
        self.selected = Some(index);
        self.update_selected_topic_index();
    }

    /// Drops the selection.
    pub fn deselect(&mut self)
        requires
            old(self).wf(),
        ensures
            final(self).wf(),
            final(self)@ == (TopicsView { selected: None, ..old(self)@ }),
    {
        self.selected = None;
    }

    /// The topics as the service last reported them.
    pub fn all(&self) -> (r: &Vec<TopicInfo>)
        ensures
            names(r@) == self@.source,
    {
        &self.all
    }

    /// The topics shown.
    pub fn visible(&self) -> (r: &Vec<TopicInfo>)
        requires
            self.wf(),
        ensures
            names(r@) == self@.visible(),
    {
        &self.visible
    }

    pub fn filter_text(&self) -> (r: &String)
        ensures
            r@ == self@.filter_text,
    {
        &self.filter_text
    }

    pub fn filter_active(&self) -> (r: bool)
        ensures
            r == self@.filter_active,
    {
        self.filter_active
    }

    pub fn selected(&self) -> (r: Option<usize>)
        ensures
            r == self@.selected,
    {
        self.selected
    }

    /// Works out anew what is shown.
    fn filter_and_sort_topics(&mut self)
        ensures
            names(final(self).visible@) == final(self)@.visible(),
            final(self)@ == old(self)@,
            final(self).selected == old(self).selected,
    {
        if !self.filter_active || self.filter_text.as_str().is_empty() {
            self.visible = sort_by_name(&self.all);
        } else {
            let lower = to_lowercase(self.filter_text.as_str());
            let needle = chars_of(lower.as_str());
            let folded = fold_names(&self.all);
            let matched = select_matching(&self.all, &folded, &needle);
            self.visible = sort_by_name(&matched);
        }
    }

    /// Brings the selection back into what is shown.
    fn update_selected_topic_index(&mut self)
        requires
            names(old(self).visible@) == old(self)@.visible(),
        ensures
            final(self).wf(),
            final(self)@ == old(self)@.clamped(),
    {
        self.selected = clamped(self.selected, self.visible.len());
    }
}

/// A selection brought back into a list of `len` entries.
pub fn clamped(selected: Option<usize>, len: usize) -> (out: Option<usize>)
    ensures
        out == clamp_selection(selected, len as nat),
        out matches Some(i) ==> i < len,
{
    match selected {
        Some(i) => {
            if i < len {
                Some(i)
            } else if len == 0 {
                None
            } else {
                Some(len - 1)
            }
        },
        None => None,
    }
}

/// A selection moved by one entry through a list of `len` entries.
pub fn moved(selected: Option<usize>, len: usize, direction: SelectionDirection) -> (out: Option<
    usize,
>)
    ensures
        out == move_selected(selected, len as nat, direction),
        out matches Some(i) ==> i < len,
{
    if len == 0 {
        return None;
    }
    match (clamped(selected, len), direction) {
        (None, SelectionDirection::Down) => Some(0),
        (None, SelectionDirection::Up) => Some(len - 1),
        (Some(i), SelectionDirection::Down) => {
            if i + 1 == len {
                Some(0)
            } else {
                Some(i + 1)
            }
        },
        (Some(i), SelectionDirection::Up) => {
            if i == 0 {
                Some(len - 1)
            } else {
                Some(i - 1)
            }
        },
    }
}

/// Applies a request to the topic list.
pub fn on_event(state: &mut Topics, e: TopicsEvent)
    requires
        old(state).wf(),
    ensures
        final(state).wf(),
        final(state)@ == old(state)@.apply(e@),
{
    match e {
        TopicsEvent::Select(i) => state.select(i),
        TopicsEvent::Deselect => state.deselect(),
        TopicsEvent::Filter(text) => {
            state.toggle_filter(true);
            state.set_filter_text(text);
        },
        TopicsEvent::ClearFilter => state.toggle_filter(false),
        TopicsEvent::Refresh => {},
    }
}

/// What a key that moves the selection asks for.
fn selection_key(state: &Topics, direction: SelectionDirection) -> (out: InputHandled<TopicsEvent>)
    requires
        state.wf(),
    ensures
        out@ == state@.selection_key(direction),
{
    match moved(state.selected, state.visible.len(), direction) {
        Some(i) => handled(TopicsEvent::Select(i)),
        None => handled_empty(),
    }
}

/// Offers a key to the topic list.
pub fn on_key(state: &Topics, key: KeyEvent) -> (out: InputHandled<TopicsEvent>)
    requires
        state.wf(),
    ensures
        out@ == state@.on_key(key),
{
    match key.code {
        KeyCode::Down => selection_key(state, SelectionDirection::Down),
        KeyCode::Up => selection_key(state, SelectionDirection::Up),
        KeyCode::Esc => {
            if state.filter_active {
                handled(TopicsEvent::ClearFilter)
            } else {
                not_handled()
            }
        },
        KeyCode::Backspace => {
            if !state.filter_active {
                return not_handled();
            }
            let mut chars = chars_of(state.filter_text.as_str());
            if chars.len() == 0 {
                return handled_empty();
            }
            chars.pop();
            handled(TopicsEvent::Filter(string_of(&chars)))
        },
        KeyCode::Char(c) => {
            if !key.modifiers.is_empty() {
                not_handled()
            } else if state.filter_active {
                let mut chars = chars_of(state.filter_text.as_str());
                chars.push(c);
                handled(TopicsEvent::Filter(string_of(&chars)))
            } else if c == '/' {
                handled(TopicsEvent::Filter(state.filter_text.clone()))
            } else if c == 'j' {
                selection_key(state, SelectionDirection::Down)
            } else if c == 'k' {
                selection_key(state, SelectionDirection::Up)
            } else if c == 'r' {
                handled(TopicsEvent::Refresh)
            } else {
                not_handled()
            }
        },
        _ => not_handled(),
    }
}

/// The selection after a run of moves, applied in order.
pub open spec fn move_all(list: TopicsView, moves: Seq<SelectionDirection>) -> TopicsView
    decreases moves.len(),
{
    if moves.len() == 0 {
        list
    } else {
        move_all(list, moves.drop_last()).move_selection(moves.last())
    }
}

/// Where a name goes into a sorted list, nothing before it comes after the
/// name and nothing from there on comes before it.
proof fn lemma_insert_point(sorted: Seq<Seq<char>>, name: Seq<char>)
    ensures
        0 <= insert_point(sorted, name) <= sorted.len(),
        insert_point(sorted, name) > 0 ==> lex_le(sorted[insert_point(sorted, name) - 1], name),
        forall|k: int|
            insert_point(sorted, name) <= k < sorted.len() ==> lex_le(name, #[trigger] sorted[k]),
    decreases sorted.len(),
{
    if sorted.len() > 0 {
        if !lex_le(sorted.last(), name) {
            lemma_insert_point(sorted.drop_last(), name);
            lemma_lex_le_total(sorted.last(), name);
            let p = insert_point(sorted, name);
            assert forall|k: int| p <= k < sorted.len() implies lex_le(
                name,
                #[trigger] sorted[k],
            ) by {
                if k < sorted.len() - 1 {
                    assert(sorted[k] == sorted.drop_last()[k]);
                }
            }
            if p > 0 {
                assert(sorted[p - 1] == sorted.drop_last()[p - 1]);
            }
        }
    }
}

/// Putting a name at its insert point keeps a sorted list sorted and adds
/// the name to what the list holds, and nothing else.
proof fn lemma_insert_sorted(sorted: Seq<Seq<char>>, name: Seq<char>)
    requires
        is_sorted(sorted),
    ensures
        is_sorted(sorted.insert(insert_point(sorted, name), name)),
        sorted.insert(insert_point(sorted, name), name).to_multiset()
            == sorted.to_multiset().insert(name),
{
    lemma_insert_point(sorted, name);
    let p = insert_point(sorted, name);
    let out = sorted.insert(p, name);
    assert forall|i: int, j: int| 0 <= i < j < out.len() implies lex_le(out[i], out[j]) by {
        if j < p {
            assert(lex_le(sorted[i], sorted[j]));
        } else if j == p {
            if i < p - 1 {
                assert(lex_le(sorted[i], sorted[p - 1]));
                lemma_lex_le_transitive(sorted[i], sorted[p - 1], name);
            }
        } else if i == p {
            assert(out[j] == sorted[j - 1]);
        } else if i < p {
            assert(out[j] == sorted[j - 1]);
            assert(lex_le(sorted[i], sorted[j - 1]));
        } else {
            assert(out[i] == sorted[i - 1] && out[j] == sorted[j - 1]);
            assert(lex_le(sorted[i - 1], sorted[j - 1]));
        }
    }
    assert(out.remove(p) =~= sorted);
    vstd::seq_lib::to_multiset_remove(out, p);
    out.to_multiset_ensures();
    assert(out.contains(name)) by {
        assert(out[p] == name);
    }
    assert(out.to_multiset() =~= sorted.to_multiset().insert(name));
}

/// Sorting puts the names in ascending order and neither adds nor drops a
/// name.
pub proof fn lemma_sort_names(s: Seq<Seq<char>>)
    ensures
        is_sorted(sort_names(s)),
        sort_names(s).to_multiset() == s.to_multiset(),
        sort_names(s).len() == s.len(),
    decreases s.len(),
{
    if s.len() == 0 {
        assert(sort_names(s) =~= s);
    } else {
        lemma_sort_names(s.drop_last());
        lemma_insert_sorted(sort_names(s.drop_last()), s.last());
        lemma_insert_point(sort_names(s.drop_last()), s.last());
        s.drop_last().to_multiset_ensures();
        assert(s.drop_last().push(s.last()) =~= s);
    }
}

/// Two sorted lists that hold the same names, each as often as the other,
/// are the same list.
proof fn lemma_sorted_is_unique(a: Seq<Seq<char>>, b: Seq<Seq<char>>)
    requires
        is_sorted(a),
        is_sorted(b),
        a.to_multiset() == b.to_multiset(),
    ensures
        a == b,
    decreases a.len(),
{
    a.to_multiset_ensures();
    b.to_multiset_ensures();
    if a.len() == 0 {
        assert(a =~= b);
    } else {
        assert(a.len() == a.to_multiset().len());
        assert(b.len() == b.to_multiset().len());
        assert(a.contains(a[0]));
        assert(b.contains(b[0]));
        assert(a.to_multiset().count(a[0]) > 0);
        assert(b.to_multiset().count(b[0]) > 0);
        assert(b.to_multiset().count(a[0]) > 0);
        assert(a.to_multiset().count(b[0]) > 0);
        assert(b.contains(a[0]));
        assert(a.contains(b[0]));
        lemma_lex_le_reflexive(a[0]);
        assert(lex_le(b[0], a[0]));
        assert(lex_le(a[0], b[0]));
        lemma_lex_le_antisymmetric(a[0], b[0]);
        vstd::seq_lib::to_multiset_remove(a, 0);
        vstd::seq_lib::to_multiset_remove(b, 0);
        assert(a.remove(0) =~= a.drop_first());
        assert(b.remove(0) =~= b.drop_first());
        assert forall|i: int, j: int| 0 <= i < j < a.drop_first().len() implies lex_le(
            a.drop_first()[i],
            a.drop_first()[j],
        ) by {
            assert(lex_le(a[i + 1], a[j + 1]));
        }
        assert forall|i: int, j: int| 0 <= i < j < b.drop_first().len() implies lex_le(
            b.drop_first()[i],
            b.drop_first()[j],
        ) by {
            assert(lex_le(b[i + 1], b[j + 1]));
        }
        lemma_sorted_is_unique(a.drop_first(), b.drop_first());
        assert(a =~= seq![a[0]] + a.drop_first());
        assert(b =~= seq![b[0]] + b.drop_first());
    }
}

/// Sorting gives the one arrangement of the names that is in ascending
/// order: whatever list is sorted and holds the same names, each as often,
/// is the sorted list.
pub proof fn lemma_sort_names_is_the_sorted_arrangement(s: Seq<Seq<char>>, sorted: Seq<Seq<char>>)
    requires
        is_sorted(sorted),
        sorted.to_multiset() == s.to_multiset(),
    ensures
        sorted == sort_names(s),
{
    lemma_sort_names(s);
    lemma_sorted_is_unique(sorted, sort_names(s));
}

/// The names that a filter text keeps are exactly those that match it,
/// whatever the case of either, in the order in which they stood.
pub proof fn lemma_filter_keeps_the_matches(source: Seq<Seq<char>>, text: Seq<char>)
    ensures
        filter_names(source, text) == source.filter(|n: Seq<char>| matches_filter(n, text)),
    decreases source.len(),
{
    reveal(Seq::filter);
    let fold = |n: Seq<char>| lowercase(n);
    if source.len() > 0 {
        lemma_filter_keeps_the_matches(source.drop_last(), text);
        assert(source.map_values(fold).drop_last() =~= source.drop_last().map_values(fold));
    }
}

/// Whatever filter text was in use, an empty filter text, or filtering
/// turned off, shows the whole source again, sorted.
pub proof fn lemma_clearing_the_filter_shows_all(list: TopicsView, text: Seq<char>, active: bool)
    ensures
        list.set_filter_text(text).set_filter_text(Seq::empty()).visible() == sort_names(
            list.source,
        ),
        list.set_filter_text(text).toggle_filter(false).visible() == sort_names(list.source),
        list.toggle_filter(active).set_filter_text(text).toggle_filter(false).visible()
            == sort_names(list.source),
        list.toggle_filter(active).set_filter_text(text).set_filter_text(Seq::empty()).visible()
            == sort_names(list.source),
{
}

/// While nothing is shown, no run of moves selects anything.
pub proof fn lemma_moves_over_nothing(list: TopicsView, moves: Seq<SelectionDirection>)
    requires
        list.visible().len() == 0,
        list.wf(),
    ensures
        move_all(list, moves).selected is None,
        move_all(list, moves) == list,
    decreases moves.len(),
{
    if moves.len() > 0 {
        lemma_moves_over_nothing(list, moves.drop_last());
    }
}

/// A selection that was brought back into what is shown points at a shown
/// entry.
pub proof fn lemma_clamped_is_wf(list: TopicsView)
    ensures
        list.clamped().wf(),
{
}

} // verus!
