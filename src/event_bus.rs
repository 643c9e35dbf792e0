//! The state machine. An intent (`Message`) becomes either an event that
//! applies at once, or an operation that the caller performs against the
//! brokers and whose outcome comes back as an event. Events fold
//! into the state; a failed operation leaves the state as it was.
use crate::api_client::BootstrapServer;
use crate::protocol_responses::describeconfigs_response;
use crate::protocol_responses::findcoordinator_response::Coordinator;
use crate::protocol_responses::listoffsets_response;
use crate::protocol_responses::metadata_response::MetadataResponse;
use crate::protocol_responses::metadata_response::PartitionMetadata;
use crate::protocol_responses::offsetfetch_response;
use crate::state::CurrentView;
use crate::state::DialogMessage;
use crate::state::PartitionInfoState;
use crate::state::State;
use crate::state::StateFNError;
use crate::state::TopicInfoState;
use crate::state::first_match_from;
use crate::state::topic_names;
use vstd::string::StringExecFns;
use std::collections::HashMap;
use vstd::prelude::*;

verus! {

/// How far a page move goes.
pub const PAGE_MOVEMENT: usize = 10;

/// A consumer group and its coordinator, found once per session.
#[derive(Debug)]
pub struct ConsumerGroup(pub String, pub Coordinator);

#[derive(Clone, Copy, Debug, PartialEq, Eq, Structural)]
pub enum MoveSelection {
    Up,
    PageUp,
    Down,
    PageDown,
    Top,
    Bottom,
    SearchNext,
}

#[derive(Debug)]
pub enum TopicQuery {
    NoQuery,
    Query(String),
}

#[derive(Debug)]
pub enum Creation {
    Topic { name: String, partitions: i32, replication_factor: i16 },
}

#[derive(Debug)]
pub enum Deletion {
    Topic(String),
    Config(String),
}

#[derive(Debug)]
pub enum Modification {
    Config(String),
}

/// What a metadata refresh brought back, by view.
#[derive(Debug)]
pub enum MetadataPayload {
    Metadata(MetadataResponse),
    PartitionsMetadata(
        MetadataResponse,
        Vec<PartitionMetadata>,
        HashMap<i32, listoffsets_response::PartitionResponse>,
        HashMap<i32, offsetfetch_response::PartitionResponse>,
    ),
    TopicInfoMetadata(MetadataResponse, describeconfigs_response::Resource),
}

/// An intent from the input layer.
#[derive(Debug)]
pub enum Message {
    Quit,
    Noop,
    GetMetadata(BootstrapServer, Option<ConsumerGroup>),
    ToggleView(CurrentView),
    DisplayUIMessage(DialogMessage),
    UserInput(String),
    Select(MoveSelection),
    SetTopicQuery(TopicQuery),
    Create(BootstrapServer, Creation, i32),
    Delete(BootstrapServer, i32),
    ModifyValue(BootstrapServer, Option<String>),
}

/// A change to fold into the state.
#[derive(Debug)]
pub enum Event {
    Exiting,
    StateIdentity,
    ViewToggled(CurrentView),
    ShowUIMessage(DialogMessage),
    UserInputUpdated(String),
    SelectionUpdated(MoveSelection),
    TopicQuerySet(Option<String>),
    MetadataRetrieved(MetadataPayload),
    ResourceCreated(String),
    ResourceDeleted(Deletion),
    ValueModified(Modification),
}

/// Broker work still to be done, as plain data.
#[derive(Debug)]
pub enum Operation {
    FetchMetadata(BootstrapServer, Option<ConsumerGroup>),
    Create(BootstrapServer, Creation, i32),
    Delete(BootstrapServer, i32),
    ModifyValue(BootstrapServer, Option<String>),
}

/// What an intent turns into.
#[derive(Debug)]
pub enum Translation {
    Apply(Event),
    Perform(Operation),
}

// ---------------------------------------------------------------------------
// Selection
// ---------------------------------------------------------------------------

/// The cursor after one move over a list of `len` entries. `found` is where a
/// search from the cursor lands, if anywhere; a search that finds nothing
/// leaves the cursor where it is, whatever the list.
pub open spec fn spec_move(len: int, cur: int, dir: MoveSelection, found: Option<int>) -> int {
    if dir == MoveSelection::SearchNext {
        match found {
            Some(i) => i,
            None => cur,
        }
    } else if len <= 0 {
        0
    } else {
        let c = if cur < len {
            cur
        } else {
            len - 1
        };
        match dir {
            MoveSelection::Up => if c > 0 {
                c - 1
            } else {
                0
            },
            MoveSelection::Down => if c + 1 < len {
                c + 1
            } else {
                len - 1
            },
            MoveSelection::PageUp => if c > PAGE_MOVEMENT {
                c - PAGE_MOVEMENT
            } else {
                0
            },
            MoveSelection::PageDown => if c + PAGE_MOVEMENT < len {
                c + PAGE_MOVEMENT
            } else {
                len - 1
            },
            MoveSelection::Top => 0,
            MoveSelection::Bottom => len - 1,
            MoveSelection::SearchNext => match found {
                Some(i) => i,
                None => cur,
            },
        }
    }
}

/// Moves the cursor over a list of `len` entries.
pub fn move_cursor(len: usize, cur: usize, dir: MoveSelection, found: Option<usize>) -> (r: usize)
    ensures
        r == spec_move(len as int, cur as int, dir, match found {
            Some(i) => Some(i as int),
            None => None,
        }),
{
    if let MoveSelection::SearchNext = dir {
        return match found {
            Some(i) => i,
            None => cur,
        };
    }
    if len == 0 {
        return 0;
    }
    let c = if cur < len {
        cur
    } else {
        len - 1
    };
    match dir {
        MoveSelection::Up => if c > 0 {
            c - 1
        } else {
            0
        },
        MoveSelection::Down => if c < len - 1 {
            c + 1
        } else {
            len - 1
        },
        MoveSelection::PageUp => if c > PAGE_MOVEMENT {
            c - PAGE_MOVEMENT
        } else {
            0
        },
        MoveSelection::PageDown => if c < len - 1 && len - 1 - c > PAGE_MOVEMENT {
            c + PAGE_MOVEMENT
        } else {
            len - 1
        },
        MoveSelection::Top => 0,
        MoveSelection::Bottom => len - 1,
        MoveSelection::SearchNext => match found {
            Some(i) => i,
            None => cur,
        },
    }
}

/// The cursor after a run of moves; `search` gives, for each cursor, where a
/// search from it lands.
pub open spec fn spec_moves(
    len: int,
    cur: int,
    dirs: Seq<MoveSelection>,
    search: spec_fn(int) -> Option<int>,
) -> int
    decreases dirs.len(),
{
    if dirs.len() == 0 {
        cur
    } else {
        spec_moves(len, spec_move(len, cur, dirs[0], search(cur)), dirs.drop_first(), search)
    }
}

/// A search lands strictly after the cursor and on the list.
pub open spec fn search_ahead(len: int, search: spec_fn(int) -> Option<int>) -> bool {
    forall|c: int| #[trigger] search(c) is Some ==> c < search(c).unwrap() < len
}

/// A cursor on the list (or at 0 on an empty list).
pub open spec fn on_list(len: int, cur: int) -> bool {
    0 <= cur && (cur < len || cur == 0)
}

/// The cursor never leaves the list, whatever the moves and however many.
pub proof fn lemma_cursor_stays_on_list(
    len: int,
    cur: int,
    dirs: Seq<MoveSelection>,
    search: spec_fn(int) -> Option<int>,
)
    requires
        on_list(len, cur),
        search_ahead(len, search),
    ensures
        on_list(len, spec_moves(len, cur, dirs, search)),
    decreases dirs.len(),
{
    if dirs.len() > 0 {
        let next = spec_move(len, cur, dirs[0], search(cur));
        assert(on_list(len, next));
        lemma_cursor_stays_on_list(len, next, dirs.drop_first(), search);
    }
}

/// Moving to the top, or to the bottom, twice is the same as once; and a
/// search never moves the cursor back, nor leaves it where it was unless
/// nothing matched.
pub proof fn lemma_top_bottom_idempotent_search_forward(
    len: int,
    cur: int,
    found: Option<int>,
    again: Option<int>,
)
    requires
        on_list(len, cur),
        found is Some ==> cur < found.unwrap() < len,
    ensures
        spec_move(len, spec_move(len, cur, MoveSelection::Top, found), MoveSelection::Top, again)
            == spec_move(len, cur, MoveSelection::Top, found),
        spec_move(len, spec_move(len, cur, MoveSelection::Bottom, found), MoveSelection::Bottom, again)
            == spec_move(len, cur, MoveSelection::Bottom, found),
        spec_move(len, cur, MoveSelection::SearchNext, found) == cur || spec_move(
            len,
            cur,
            MoveSelection::SearchNext,
            found,
        ) > cur,
        found is None ==> spec_move(len, cur, MoveSelection::SearchNext, found) == cur,
{
}

/// A search that finds nothing leaves the cursor where it is, on any list,
/// an empty one included.
pub proof fn lemma_search_without_match_keeps_cursor(len: int, cur: int)
    ensures
        spec_move(len, cur, MoveSelection::SearchNext, None) == cur,
{
}

/// A topic search from the cursor lands after it and on the list.
pub proof fn lemma_first_match_ahead(names: Seq<Seq<char>>, q: Seq<char>, j: int)
    ensures
        first_match_from(names, q, j) is Some ==> j <= first_match_from(names, q, j).unwrap()
            < names.len(),
    decreases names.len() - j,
{
    if 0 <= j < names.len() {
        lemma_first_match_ahead(names, q, j + 1);
    }
}

/// Where a topic search from the cursor lands in `s`.
pub open spec fn topic_search(s: State) -> Option<int> {
    match (s.topic_name_query, s.metadata) {
        (Some(q), Some(m)) => if s.selected_index < m.topic_metadata@.len() {
            first_match_from(topic_names(m.deep_view()), q@, s.selected_index + 1)
        } else {
            None
        },
        _ => None,
    }
}

/// The number of topics in `s`'s snapshot.
pub open spec fn topic_count(s: State) -> int {
    match s.metadata {
        Some(m) => m.topic_metadata@.len() as int,
        None => 0,
    }
}

/// The view and cursor that a move selects in `state`.
pub fn select(state: &State, direction: MoveSelection) -> (r: (CurrentView, usize))
    ensures
        r.0 == state.current_view,
        state.current_view == CurrentView::HelpScreen ==> r.1 == 0,
        state.current_view == CurrentView::Topics ==> r.1 == spec_move(
            topic_count(*state),
            state.selected_index as int,
            direction,
            topic_search(*state),
        ),
        state.current_view == CurrentView::Partitions ==> r.1 == match state.partition_info_state {
            Some(p) => spec_move(
                p.partition_metadata@.len() as int,
                p.selected_index as int,
                direction,
                None,
            ),
            None => 0,
        },
        state.current_view == CurrentView::TopicInfo ==> r.1 == match state.topic_info_state {
            Some(t) => spec_move(
                t.config_resource.config_entries@.len() as int,
                t.selected_index as int,
                direction,
                None,
            ),
            None => 0,
        },
{
    match state.current_view {
        CurrentView::HelpScreen => {
            let r = (CurrentView::HelpScreen, 0usize);
            r
        },
        CurrentView::Topics => {
            let len = match &state.metadata {
                Some(m) => m.topic_metadata.len(),
                None => 0,
            };
            let found = match direction {
                MoveSelection::SearchNext => state.find_next_index(false),
                _ => None,
            };
            proof {
                if state.metadata is Some {
                    let m = state.metadata.unwrap();
                    assert(topic_names(m.deep_view()).len() == m.topic_metadata@.len());
                    if state.topic_name_query is Some {
                        lemma_first_match_ahead(
                            topic_names(m.deep_view()),
                            state.topic_name_query.unwrap()@,
                            state.selected_index + 1,
                        );
                    }
                }
            }
            (CurrentView::Topics, move_cursor(len, state.selected_index, direction, found))
        },
        CurrentView::Partitions => match &state.partition_info_state {
            Some(p) => (
                CurrentView::Partitions,
                move_cursor(p.partition_metadata.len(), p.selected_index, direction, None),
            ),
            None => (CurrentView::Partitions, 0),
        },
        CurrentView::TopicInfo => match &state.topic_info_state {
            Some(t) => (
                CurrentView::TopicInfo,
                move_cursor(t.config_resource.config_entries.len(), t.selected_index, direction, None),
            ),
            None => (CurrentView::TopicInfo, 0),
        },
    }
}

// ---------------------------------------------------------------------------
// Translate
// ---------------------------------------------------------------------------

/// Turns an intent into an event to apply now, or into broker work to do.
pub fn to_event(message: Message) -> (r: Translation)
    ensures
        match message {
            Message::Quit => r == Translation::Apply(Event::Exiting),
            Message::Noop => r == Translation::Apply(Event::StateIdentity),
            Message::DisplayUIMessage(m) => r == Translation::Apply(Event::ShowUIMessage(m)),
            Message::UserInput(s) => r == Translation::Apply(Event::UserInputUpdated(s)),
            Message::ToggleView(v) => r == Translation::Apply(Event::ViewToggled(v)),
            Message::Select(d) => r == Translation::Apply(Event::SelectionUpdated(d)),
            Message::SetTopicQuery(TopicQuery::Query(q)) => r == Translation::Apply(
                Event::TopicQuerySet(Some(q)),
            ),
            Message::SetTopicQuery(TopicQuery::NoQuery) => r == Translation::Apply(
                Event::TopicQuerySet(None),
            ),
            Message::GetMetadata(a, g) => r == Translation::Perform(Operation::FetchMetadata(a, g)),
            Message::Create(a, c, t) => r == Translation::Perform(Operation::Create(a, c, t)),
            Message::Delete(a, t) => r == Translation::Perform(Operation::Delete(a, t)),
            Message::ModifyValue(a, v) => r == Translation::Perform(Operation::ModifyValue(a, v)),
        },
{
    match message {
        Message::Quit => Translation::Apply(Event::Exiting),
        Message::Noop => Translation::Apply(Event::StateIdentity),
        Message::DisplayUIMessage(m) => Translation::Apply(Event::ShowUIMessage(m)),
        Message::UserInput(s) => Translation::Apply(Event::UserInputUpdated(s)),
        Message::ToggleView(v) => Translation::Apply(Event::ViewToggled(v)),
        Message::Select(d) => Translation::Apply(Event::SelectionUpdated(d)),
        Message::SetTopicQuery(query) => match query {
            TopicQuery::Query(q) => Translation::Apply(Event::TopicQuerySet(Some(q))),
            TopicQuery::NoQuery => Translation::Apply(Event::TopicQuerySet(None)),
        },
        Message::GetMetadata(a, g) => Translation::Perform(Operation::FetchMetadata(a, g)),
        Message::Create(a, c, t) => Translation::Perform(Operation::Create(a, c, t)),
        Message::Delete(a, t) => Translation::Perform(Operation::Delete(a, t)),
        Message::ModifyValue(a, v) => Translation::Perform(Operation::ModifyValue(a, v)),
    }
}

// ---------------------------------------------------------------------------
// Apply
// ---------------------------------------------------------------------------

/// The message shown once a topic is created.
pub open spec fn created_message(name: Seq<char>) -> Seq<char> {
    "Topic '"@ + name + "' created. Press 'r' to refresh view."@
}

/// `s` after a selection move.
pub open spec fn selected(s: State, dir: MoveSelection) -> State {
    match s.current_view {
        CurrentView::HelpScreen => s,
        CurrentView::Topics => State {
            selected_index: spec_move(topic_count(s), s.selected_index as int, dir, topic_search(s))
                as usize,
            ..s
        },
        CurrentView::Partitions => match s.partition_info_state {
            Some(p) => State {
                partition_info_state: Some(
                    PartitionInfoState {
                        selected_index: spec_move(
                            p.partition_metadata@.len() as int,
                            p.selected_index as int,
                            dir,
                            None,
                        ) as usize,
                        ..p
                    },
                ),
                ..s
            },
            None => s,
        },
        CurrentView::TopicInfo => match s.topic_info_state {
            Some(t) => State {
                topic_info_state: Some(
                    TopicInfoState {
                        selected_index: spec_move(
                            t.config_resource.config_entries@.len() as int,
                            t.selected_index as int,
                            dir,
                            None,
                        ) as usize,
                        ..t
                    },
                ),
                ..s
            },
            None => s,
        },
    }
}

/// A selection move in the topic list keeps a cursor that is on the list on
/// it; a search never moves it back.
pub proof fn lemma_topic_selection_stays_on_list(s: State, dir: MoveSelection)
    requires
        s.current_view == CurrentView::Topics,
        on_list(topic_count(s), s.selected_index as int),
        topic_count(s) <= usize::MAX,
    ensures
        on_list(topic_count(selected(s, dir)), selected(s, dir).selected_index as int),
        dir == MoveSelection::SearchNext ==> selected(s, dir).selected_index >= s.selected_index,
{
    match (s.topic_name_query, s.metadata) {
        (Some(q), Some(m)) => {
            let names = topic_names(m.deep_view());
            assert(names.len() == m.topic_metadata@.len());
            lemma_first_match_ahead(names, q@, s.selected_index + 1);
        },
        _ => {},
    }
}

/// Folds an event into the state. Only `Exiting` fails, and then the state
/// is left as it was.
pub fn update_state(state: &mut State, event: Event) -> (r: Result<(), StateFNError>)
    ensures
        match event {
            Event::Exiting => r is Err && *final(state) == *old(state),
            Event::StateIdentity => r is Ok && *final(state) == *old(state),
            Event::ViewToggled(v) => r is Ok && *final(state) == State {
                current_view: v,
                ..*old(state)
            },
            Event::ShowUIMessage(m) => r is Ok && *final(state) == State {
                dialog_message: if m is Empty {
                    None
                } else {
                    Some(m)
                },
                ..*old(state)
            },
            Event::UserInputUpdated(s) => r is Ok && *final(state) == State {
                user_input: if s@.len() == 0 {
                    None
                } else {
                    Some(s)
                },
                ..*old(state)
            },
            Event::SelectionUpdated(d) => r is Ok && *final(state) == selected(*old(state), d),
            Event::TopicQuerySet(q) => r is Ok && *final(state) == State {
                topic_name_query: q,
                ..*old(state)
            },
            Event::MetadataRetrieved(MetadataPayload::Metadata(m)) => {
                &&& r is Ok
                &&& final(state).current_view == CurrentView::Topics
                &&& final(state).selected_index == old(state).selected_index
                &&& final(state).metadata == Some(m)
                &&& final(state).dialog_message is None
                &&& final(state).user_input is None
                &&& final(state).marked_deleted@.len() == 0
                &&& final(state).topic_name_query is None
                &&& final(state).topic_info_state is None
                &&& final(state).partition_info_state is None
            },
            Event::MetadataRetrieved(MetadataPayload::PartitionsMetadata(m, pm, offsets, consumer)) => {
                &&& r is Ok
                &&& *final(state) == State {
                    metadata: Some(m),
                    partition_info_state: final(state).partition_info_state,
                    ..*old(state)
                }
                &&& final(state).partition_info_state matches Some(p) && p.selected_index == 0
                    && p.partition_metadata == pm && p.partition_offsets == offsets
                    && p.consumer_offsets == consumer
            },
            Event::MetadataRetrieved(MetadataPayload::TopicInfoMetadata(m, resource)) => {
                &&& r is Ok
                &&& *final(state) == State {
                    metadata: Some(m),
                    topic_info_state: final(state).topic_info_state,
                    ..*old(state)
                }
                &&& if old(state).selected_index < m.topic_metadata@.len() {
                    final(state).topic_info_state matches Some(t) && t.topic_metadata.deep_view()
                        == m.topic_metadata@[old(state).selected_index as int].deep_view()
                        && t.config_resource == resource && t.selected_index == 0
                        && t.configs_marked_deleted@.len() == 0
                        && t.configs_marked_modified@.len() == 0
                } else {
                    final(state).topic_info_state is None
                }
            },
            Event::ResourceCreated(name) => {
                &&& r is Ok
                &&& *final(state) == State {
                    dialog_message: final(state).dialog_message,
                    ..*old(state)
                }
                &&& final(state).dialog_message matches Some(DialogMessage::Info(text)) && text@
                    == created_message(name@)
            },
            Event::ResourceDeleted(Deletion::Topic(name)) => {
                &&& r is Ok
                &&& *final(state) == State {
                    marked_deleted: final(state).marked_deleted,
                    ..*old(state)
                }
                &&& final(state).marked_deleted@ == old(state).marked_deleted@.push(name)
            },
            Event::ResourceDeleted(Deletion::Config(name)) => {
                &&& r is Ok
                &&& match old(state).topic_info_state {
                    Some(t) => final(state).topic_info_state matches Some(t2) && *final(state)
                        == State { topic_info_state: Some(t2), ..*old(state) } && t2
                        == TopicInfoState { configs_marked_deleted: t2.configs_marked_deleted, ..t }
                        && t2.configs_marked_deleted@ == t.configs_marked_deleted@.push(name),
                    None => *final(state) == *old(state),
                }
            },
            Event::ValueModified(Modification::Config(name)) => {
                &&& r is Ok
                &&& match old(state).topic_info_state {
                    Some(t) => final(state).topic_info_state matches Some(t2) && *final(state)
                        == State { topic_info_state: Some(t2), ..*old(state) } && t2
                        == TopicInfoState { configs_marked_modified: t2.configs_marked_modified, ..t }
                        && t2.configs_marked_modified@ == t.configs_marked_modified@.push(name),
                    None => *final(state) == *old(state),
                }
            },
        },
{
    match event {
        Event::Exiting => Err(
            StateFNError::error("Invalid State, can not update state from Exiting event"),
        ),
        Event::StateIdentity => Ok(()),
        Event::ViewToggled(v) => {
            state.current_view = v;
            Ok(())
        },
        Event::ShowUIMessage(m) => {
            match m {
                DialogMessage::Empty => {
                    state.dialog_message = None;
                },
                _ => {
                    state.dialog_message = Some(m);
                },
            }
            Ok(())
        },
        Event::UserInputUpdated(s) => {
            if s.as_str().is_empty() {
                state.user_input = None;
            } else {
                state.user_input = Some(s);
            }
            Ok(())
        },
        Event::SelectionUpdated(d) => {
            let (view, index) = select(state, d);
            match view {
                CurrentView::HelpScreen => {},
                CurrentView::Topics => {
                    state.selected_index = index;
                },
                CurrentView::Partitions => match &mut state.partition_info_state {
                    Some(p) => {
                        p.selected_index = index;
                    },
                    None => {},
                },
                CurrentView::TopicInfo => match &mut state.topic_info_state {
                    Some(t) => {
                        t.selected_index = index;
                    },
                    None => {},
                },
            }
            Ok(())
        },
        Event::TopicQuerySet(q) => {
            state.topic_name_query = q;
            Ok(())
        },
        Event::MetadataRetrieved(payload) => match payload {
            MetadataPayload::Metadata(m) => {
                let mut fresh = State::new();
                fresh.selected_index = state.selected_index;
                fresh.metadata = Some(m);
                *state = fresh;
                Ok(())
            },
            MetadataPayload::PartitionsMetadata(m, pm, offsets, consumer) => {
                state.metadata = Some(m);
                state.partition_info_state = Some(PartitionInfoState::new(pm, offsets, consumer));
                Ok(())
            },
            MetadataPayload::TopicInfoMetadata(m, resource) => {
                state.metadata = Some(m);
                state.topic_info_state = match state.selected_topic_metadata() {
                    Some(tm) => Some(TopicInfoState::new(tm, resource)),
                    None => None,
                };
                Ok(())
            },
        },
        Event::ResourceCreated(name) => {
            let mut text = String::from_str("Topic '");
            text.append(name.as_str());
            text.append("' created. Press 'r' to refresh view.");
            proof {
                reveal_strlit("Topic '");
                reveal_strlit("' created. Press 'r' to refresh view.");
            }
            state.dialog_message = Some(DialogMessage::Info(text));
            Ok(())
        },
        Event::ResourceDeleted(deletion) => match deletion {
            Deletion::Topic(name) => {
                state.marked_deleted.push(name);
                Ok(())
            },
            Deletion::Config(name) => {
                match &mut state.topic_info_state {
                    Some(t) => {
                        t.configs_marked_deleted.push(name);
                    },
                    None => {},
                }
                Ok(())
            },
        },
        Event::ValueModified(modification) => match modification {
            Modification::Config(name) => {
                match &mut state.topic_info_state {
                    Some(t) => {
                        t.configs_marked_modified.push(name);
                    },
                    None => {},
                }
                Ok(())
            },
        },
    }
}

} // verus!
