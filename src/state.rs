//! Application state: the current view, the metadata snapshot, selections,
//! and what the user has marked.
use crate::codec::Duplicate;
use crate::protocol_responses::describeconfigs_response::Resource;
use crate::protocol_responses::listoffsets_response;
use crate::protocol_responses::metadata_response::MetadataResponse;
use crate::protocol_responses::metadata_response::MetadataResponseModel;
use crate::protocol_responses::metadata_response::PartitionMetadata;
use crate::protocol_responses::metadata_response::TopicMetadata;
use crate::protocol_responses::offsetfetch_response;
use std::collections::HashMap;
use vstd::prelude::*;
use vstd::utf8::encode_utf8;

verus! {

/// A message shown to the user.
#[derive(Debug)]
pub enum DialogMessage {
    /// Clears the message.
    Empty,
    Warn(String),
    Info(String),
    Error(String),
}

/// What the screen shows.
#[derive(Clone, Copy, Debug, PartialEq, Eq, Structural)]
pub enum CurrentView {
    Topics,
    Partitions,
    TopicInfo,
    HelpScreen,
}

/// A failure while applying an intent. The state stays as it was.
#[derive(Debug)]
pub enum StateFNError {
    Error(String),
    Caused(String, String),
}

impl StateFNError {
    /// A failure with its cause, kept as text.
    pub fn caused(error: &str, cause: String) -> (r: StateFNError)
        ensures
            r matches StateFNError::Caused(e, c) && e@ == error@ && c@ == cause@,
    {
        StateFNError::Caused(error.to_string(), cause)
    }

    pub fn error(error: &str) -> (r: StateFNError)
        ensures
            r matches StateFNError::Error(e) && e@ == error@,
    {
        StateFNError::Error(error.to_string())
    }
}

/// The selected topic's configuration, a cursor over its entries, and the
/// entries marked deleted or modified since the last refresh.
#[derive(Debug)]
pub struct TopicInfoState {
    pub topic_metadata: TopicMetadata,
    pub config_resource: Resource,
    pub selected_index: usize,
    pub configs_marked_deleted: Vec<String>,
    pub configs_marked_modified: Vec<String>,
}

impl TopicInfoState {
    pub fn new(topic_metadata: TopicMetadata, config_resource: Resource) -> (r: TopicInfoState)
        ensures
            r.topic_metadata == topic_metadata,
            r.config_resource == config_resource,
            r.selected_index == 0,
            r.configs_marked_deleted@.len() == 0,
            r.configs_marked_modified@.len() == 0,
    {
        TopicInfoState {
            topic_metadata,
            config_resource,
            selected_index: 0,
            configs_marked_deleted: Vec::new(),
            configs_marked_modified: Vec::new(),
        }
    }
}

/// The selected topic's partitions sorted by id, the latest offset of each,
/// the consumer group's committed offset of each, and a cursor.
#[derive(Debug)]
pub struct PartitionInfoState {
    pub selected_index: usize,
    pub partition_metadata: Vec<PartitionMetadata>,
    pub partition_offsets: HashMap<i32, listoffsets_response::PartitionResponse>,
    pub consumer_offsets: HashMap<i32, offsetfetch_response::PartitionResponse>,
}

impl PartitionInfoState {
    pub fn new(
        partition_metadata: Vec<PartitionMetadata>,
        partition_offsets: HashMap<i32, listoffsets_response::PartitionResponse>,
        consumer_offsets: HashMap<i32, offsetfetch_response::PartitionResponse>,
    ) -> (r: PartitionInfoState)
        ensures
            r.selected_index == 0,
            r.partition_metadata == partition_metadata,
            r.partition_offsets == partition_offsets,
            r.consumer_offsets == consumer_offsets,
    {
        PartitionInfoState { selected_index: 0, partition_metadata, partition_offsets, consumer_offsets }
    }
}

/// The whole application state.
#[derive(Debug)]
pub struct State {
    pub dialog_message: Option<DialogMessage>,
    pub user_input: Option<String>,
    pub current_view: CurrentView,
    pub metadata: Option<MetadataResponse>,
    pub selected_index: usize,
    pub marked_deleted: Vec<String>,
    pub topic_name_query: Option<String>,
    pub topic_info_state: Option<TopicInfoState>,
    pub partition_info_state: Option<PartitionInfoState>,
}

/// The topic names of a metadata snapshot, in its order.
pub open spec fn topic_names(m: MetadataResponseModel) -> Seq<Seq<char>> {
    m.topic_metadata.map_values(|t: crate::protocol_responses::metadata_response::TopicMetadataModel| t.topic)
}

/// `q` occurs in `t` as a run of consecutive bytes.
pub open spec fn contains_seq(t: Seq<u8>, q: Seq<u8>) -> bool {
    exists|i: int| 0 <= i && i + q.len() <= t.len() && #[trigger] t.subrange(i, i + q.len()) == q
}

/// `name` contains `query`: the query's UTF-8 bytes occur in the name's.
pub open spec fn name_contains(name: Seq<char>, query: Seq<char>) -> bool {
    contains_seq(encode_utf8(name), encode_utf8(query))
}

/// The first index from `j` on whose name contains `q`.
pub open spec fn first_match_from(names: Seq<Seq<char>>, q: Seq<char>, j: int) -> Option<int>
    decreases names.len() - j,
{
    if j < 0 || j >= names.len() {
        None
    } else if name_contains(names[j], q) {
        Some(j)
    } else {
        first_match_from(names, q, j + 1)
    }
}

/// The last index before `j` whose name contains `q`.
pub open spec fn last_match_before(names: Seq<Seq<char>>, q: Seq<char>, j: int) -> Option<int>
    decreases j,
{
    if j <= 0 || j > names.len() {
        None
    } else if name_contains(names[j - 1], q) {
        Some(j - 1)
    } else {
        last_match_before(names, q, j - 1)
    }
}

/// An index as a machine index.
pub open spec fn as_index(o: Option<int>) -> Option<usize> {
    match o {
        Some(i) => Some(i as usize),
        None => None,
    }
}

fn bytes_match_at(t: &[u8], q: &[u8], i: usize) -> (r: bool)
    requires
        i + q@.len() <= t@.len(),
    ensures
        r == (t@.subrange(i as int, i + q@.len()) == q@),
{
    let _tl = t.len();
    let mut k: usize = 0;
    while k < q.len()
        invariant
            k <= q@.len(),
            i + q@.len() <= t@.len(),
            t@.len() <= usize::MAX,
            forall|m: int| 0 <= m < k ==> t@[i + m] == q@[m],
        decreases q@.len() - k,
    {
        if t[i + k] != q[k] {
            assert(t@.subrange(i as int, i + q@.len())[k as int] != q@[k as int]);
            return false;
        }
        k = k + 1;
    }
    assert(t@.subrange(i as int, i + q@.len()) =~= q@);
    true
}

/// Whether `text` contains `query`.
pub fn text_contains(text: &String, query: &String) -> (r: bool)
    ensures
        r == name_contains(text@, query@),
{
    let t = text.as_str().as_bytes();
    let q = query.as_str().as_bytes();
    if q.len() > t.len() {
        return false;
    }
    let last = t.len() - q.len();
    let mut i: usize = 0;
    while i <= last
        invariant
            last + q@.len() == t@.len(),
            t@ == encode_utf8(text@),
            q@ == encode_utf8(query@),
            forall|j: int| 0 <= j < i ==> #[trigger] t@.subrange(j, j + q@.len()) != q@,
        decreases last + 1 - i,
    {
        if bytes_match_at(t, q, i) {
            return true;
        }
        if i == last {
            return false;
        }
        i = i + 1;
    }
    false
}

impl State {
    pub fn new() -> (r: State)
        ensures
            r.dialog_message is None,
            r.user_input is None,
            r.current_view == CurrentView::Topics,
            r.metadata is None,
            r.selected_index == 0,
            r.marked_deleted@.len() == 0,
            r.topic_name_query is None,
            r.topic_info_state is None,
            r.partition_info_state is None,
    {
        State {
            dialog_message: None,
            user_input: None,
            current_view: CurrentView::Topics,
            metadata: None,
            selected_index: 0,
            marked_deleted: Vec::new(),
            topic_name_query: None,
            topic_info_state: None,
            partition_info_state: None,
        }
    }

    /// The name of the topic under the cursor.
    pub fn selected_topic_name(&self) -> (r: Option<String>)
        ensures
            match self.metadata {
                Some(m) => if self.selected_index < m.topic_metadata@.len() {
                    r is Some && r.unwrap()@ == m.topic_metadata@[self.selected_index as int].topic@
                } else {
                    r is None
                },
                None => r is None,
            },
    {
        match &self.metadata {
            Some(m) => if self.selected_index < m.topic_metadata.len() {
                Some(m.topic_metadata[self.selected_index].topic.clone())
            } else {
                None
            },
            None => None,
        }
    }

    /// A copy of the metadata of the topic under the cursor.
    pub fn selected_topic_metadata(&self) -> (r: Option<TopicMetadata>)
        ensures
            match self.metadata {
                Some(m) => if self.selected_index < m.topic_metadata@.len() {
                    r is Some && r.unwrap().deep_view()
                        == m.topic_metadata@[self.selected_index as int].deep_view()
                } else {
                    r is None
                },
                None => r is None,
            },
    {
        match &self.metadata {
            Some(m) => if self.selected_index < m.topic_metadata.len() {
                Some(m.topic_metadata[self.selected_index].duplicate())
            } else {
                None
            },
            None => None,
        }
    }

    /// The next topic, after the cursor (or before it, nearest first, in
    /// reverse), whose name contains the search query. Without a query, a
    /// snapshot, or a cursor on a topic there is none.
    pub fn find_next_index(&self, in_reverse: bool) -> (r: Option<usize>)
        ensures
            match (self.topic_name_query, self.metadata) {
                (Some(q), Some(m)) => {
                    let names = topic_names(m.deep_view());
                    if self.selected_index < names.len() {
                        r == as_index(if in_reverse {
                            last_match_before(names, q@, self.selected_index as int)
                        } else {
                            first_match_from(names, q@, self.selected_index + 1)
                        })
                    } else {
                        r is None
                    }
                },
                _ => r is None,
            },
    {
        let q = match &self.topic_name_query {
            Some(q) => q,
            None => return None,
        };
        let m = match &self.metadata {
            Some(m) => m,
            None => return None,
        };
        let ghost names = topic_names(m.deep_view());
        let topics = &m.topic_metadata;
        assert(names.len() == topics@.len());
        assert forall|k: int| 0 <= k < names.len() implies #[trigger] names[k] == topics@[k].topic@ by {
            assert(m.deep_view().topic_metadata[k] == topics@[k].deep_view());
        }
        if self.selected_index >= topics.len() {
            return None;
        }
        if in_reverse {
            let mut j: usize = self.selected_index;
            while j > 0
                invariant
                    in_reverse,
                    j <= self.selected_index < topics@.len(),
                    names.len() == topics@.len(),
                    names == topic_names(m.deep_view()),
                    self.topic_name_query == Some(*q),
                    self.metadata == Some(*m),
                    forall|k: int| 0 <= k < names.len() ==> #[trigger] names[k] == topics@[k].topic@,
                    last_match_before(names, q@, self.selected_index as int) == last_match_before(
                        names,
                        q@,
                        j as int,
                    ),
                decreases j,
            {
                assert(names[j - 1] == topics@[j - 1].topic@);
                assert(names[j - 1] == topics@[j - 1].topic@);
                if text_contains(&topics[j - 1].topic, q) {
                    assert(last_match_before(names, q@, j as int) == Some(j - 1));
                    return Some(j - 1);
                }
                j = j - 1;
            }
            None
        } else {
            let mut j: usize = self.selected_index + 1;
            while j < topics.len()
                invariant
                    !in_reverse,
                    self.selected_index < j <= topics@.len(),
                    names.len() == topics@.len(),
                    names == topic_names(m.deep_view()),
                    self.topic_name_query == Some(*q),
                    self.metadata == Some(*m),
                    forall|k: int| 0 <= k < names.len() ==> #[trigger] names[k] == topics@[k].topic@,
                    first_match_from(names, q@, self.selected_index + 1) == first_match_from(
                        names,
                        q@,
                        j as int,
                    ),
                decreases topics@.len() - j,
            {
                assert(names[j as int] == topics@[j as int].topic@);
                assert(names[j as int] == topics@[j as int].topic@);
                if text_contains(&topics[j].topic, q) {
                    assert(first_match_from(names, q@, j as int) == Some(j as int));
                    return Some(j);
                }
                j = j + 1;
            }
            None
        }
    }
}

} // verus!
