//! The broker work behind each operation: what to send where, and what the
//! answers mean. The caller performs the calls; everything it decides is
//! here.
use crate::api_client::ApiRequestError;
use crate::api_client::BootstrapServer;
use crate::codec::Duplicate;
use crate::codec::option_string_model;
use crate::event_bus::ConsumerGroup;
use crate::event_bus::Creation;
use crate::event_bus::Deletion;
use crate::event_bus::MetadataPayload;
use vstd::string::StringExecFns;
use crate::protocol_request::Request;
use crate::protocol_requests::alterconfigs_request;
use crate::protocol_requests::createtopics_request;
use crate::protocol_requests::deletetopics_request::DeleteTopicsRequest;
use crate::protocol_requests::findcoordinator_request::CoordinatorType;
use crate::protocol_requests::findcoordinator_request::FindCoordinatorRequest;
use crate::protocol_requests::describeconfigs_request;
use crate::protocol_requests::listoffsets_request;
use crate::protocol_requests::metadata_request::MetadataRequest;
use crate::protocol_requests::offsetfetch_request;
use crate::protocol_requests::ResourceTypes;
use crate::protocol_response::Response;
use crate::protocol_responses::alterconfigs_response::AlterConfigsResponse;
use crate::protocol_responses::createtopics_response::CreateTopicsResponse;
use crate::protocol_responses::createtopics_response::TopicError;
use crate::protocol_responses::deletetopics_response::DeleteTopicsResponse;
use crate::protocol_responses::describeconfigs_response;
use crate::protocol_responses::findcoordinator_response::FindCoordinatorResponse;
use crate::protocol_responses::describeconfigs_response::ConfigEntryModel;
use crate::protocol_responses::describeconfigs_response::ConfigSource;
use crate::protocol_responses::listoffsets_response;
use crate::protocol_responses::metadata_response::BrokerMetadata;
use crate::protocol_responses::metadata_response::MetadataResponse;
use crate::protocol_responses::metadata_response::PartitionMetadata;
use crate::protocol_responses::metadata_response::TopicMetadata;
use crate::protocol_responses::offsetfetch_response;
use crate::sorting::partitions_sorted;
use crate::sorting::sort_partitions;
use crate::sorting::sort_topics;
use crate::sorting::stable_order;
use crate::sorting::topics_sorted;
use crate::state::CurrentView;
use crate::state::State;
use crate::state::StateFNError;
use crate::utils::decimal;
use crate::utils::push_decimal;
use std::collections::HashMap;
use vstd::prelude::*;

verus! {

// ---------------------------------------------------------------------------
// Brokers
// ---------------------------------------------------------------------------

/// The first broker from index `j` on with node id `id`.
pub open spec fn first_broker(bs: Seq<BrokerMetadata>, id: i32, j: int) -> Option<int>
    decreases bs.len() - j,
{
    if j < 0 || j >= bs.len() {
        None
    } else if bs[j].node_id == id {
        Some(j)
    } else {
        first_broker(bs, id, j + 1)
    }
}

/// A broker found is on the list and has the id looked for.
pub proof fn lemma_first_broker_in_range(bs: Seq<BrokerMetadata>, id: i32, j: int)
    ensures
        first_broker(bs, id, j) is Some ==> j <= first_broker(bs, id, j).unwrap() < bs.len()
            && bs[first_broker(bs, id, j).unwrap()].node_id == id,
    decreases bs.len() - j,
{
    if 0 <= j < bs.len() {
        lemma_first_broker_in_range(bs, id, j + 1);
    }
}

/// The index of the first broker with node id `id`.
pub fn find_broker(brokers: &Vec<BrokerMetadata>, id: i32) -> (r: Option<usize>)
    ensures
        match r {
            Some(i) => first_broker(brokers@, id, 0) == Some(i as int) && i < brokers@.len(),
            None => first_broker(brokers@, id, 0) is None,
        },
{
    let mut j: usize = 0;
    while j < brokers.len()
        invariant
            j <= brokers@.len(),
            first_broker(brokers@, id, 0) == first_broker(brokers@, id, j as int),
        decreases brokers@.len() - j,
    {
        if brokers[j].node_id == id {
            return Some(j);
        }
        j = j + 1;
    }
    None
}

/// The controller broker of a snapshot: the first broker whose node id is
/// the controller id.
pub fn controller_broker(metadata: &MetadataResponse) -> (r: Option<&BrokerMetadata>)
    ensures
        match first_broker(metadata.brokers@, metadata.controller_id, 0) {
            Some(i) => r is Some && *r.unwrap() == metadata.brokers@[i],
            None => r is None,
        },
{
    proof {
        lemma_first_broker_in_range(metadata.brokers@, metadata.controller_id, 0);
    }
    let found = find_broker(&metadata.brokers, metadata.controller_id);
    match found {
        Some(i) => {
            let b = &metadata.brokers[i];
            assert(*b == metadata.brokers@[i as int]);
            Some(b)
        },
        None => None,
    }
}

/// The address of a broker, with TLS as given.
fn address_of(host: &String, port: i32, use_tls: bool) -> (r: BootstrapServer)
    ensures
        r.domain@ == host@,
        r.port == port,
        r.use_tls == use_tls,
{
    BootstrapServer::of(host.clone(), port, use_tls)
}

// ---------------------------------------------------------------------------
// Metadata
// ---------------------------------------------------------------------------

/// The Metadata request for every topic.
pub fn metadata_request() -> (r: Request<MetadataRequest>)
    ensures
        r.header.api_key == 3 && r.header.api_version == 5,
        r.request_message.topics is None,
        !r.request_message.allow_auto_topic_creation,
{
    Request::of(MetadataRequest { topics: None, allow_auto_topic_creation: false })
}

/// The snapshot a Metadata response brings, its topics sorted by
/// lower-cased name.
pub fn retrieve_metadata(response: Response<MetadataResponse>) -> (r: MetadataResponse)
    ensures
        r.throttle_time_ms == response.response_message.throttle_time_ms,
        r.brokers == response.response_message.brokers,
        r.cluster_id == response.response_message.cluster_id,
        r.controller_id == response.response_message.controller_id,
        r.topic_metadata@.to_multiset() == response.response_message.topic_metadata@.to_multiset(),
        topics_sorted(r.topic_metadata@),
        exists|p: Seq<int>| stable_order(p, response.response_message.topic_metadata@, r.topic_metadata@),
{
    let m = response.response_message;
    MetadataResponse {
        throttle_time_ms: m.throttle_time_ms,
        brokers: m.brokers,
        cluster_id: m.cluster_id,
        controller_id: m.controller_id,
        topic_metadata: sort_topics(m.topic_metadata),
    }
}

// ---------------------------------------------------------------------------
// Topic configuration
// ---------------------------------------------------------------------------

/// The DescribeConfigs request for every entry of one topic.
pub fn describe_configs_request(topic_name: &String) -> (r: Request<
    describeconfigs_request::DescribeConfigsRequest,
>)
    ensures
        r.header.api_key == 32 && r.header.api_version == 1,
        !r.request_message.include_synonyms,
        r.request_message.resources@.len() == 1,
        r.request_message.resources@[0].resource_type == 2,
        r.request_message.resources@[0].resource_name@ == topic_name@,
        r.request_message.resources@[0].config_names is None,
{
    let resource = describeconfigs_request::Resource {
        resource_type: ResourceTypes::Topic.code(),
        resource_name: topic_name.clone(),
        config_names: None,
    };
    Request::of(
        describeconfigs_request::DescribeConfigsRequest {
            resources: vec![resource],
            include_synonyms: false,
        },
    )
}

/// The text of an optional message, empty where there is none.
pub open spec fn text_or_empty(m: Option<String>) -> Seq<char> {
    match m {
        Some(s) => s@,
        None => seq![],
    }
}

/// The first resource from index `j` on named `name`.
pub open spec fn first_resource(rs: Seq<describeconfigs_response::Resource>, name: Seq<char>, j: int) -> Option<int>
    decreases rs.len() - j,
{
    if j < 0 || j >= rs.len() {
        None
    } else if rs[j].resource_name@ == name {
        Some(j)
    } else {
        first_resource(rs, name, j + 1)
    }
}

/// A resource found is on the list.
pub proof fn lemma_first_resource_in_range(rs: Seq<describeconfigs_response::Resource>, name: Seq<char>, j: int)
    ensures
        first_resource(rs, name, j) is Some ==> j <= first_resource(rs, name, j).unwrap() < rs.len(),
    decreases rs.len() - j,
{
    if 0 <= j < rs.len() {
        lemma_first_resource_in_range(rs, name, j + 1);
    }
}

/// The configuration of `topic_name` in a DescribeConfigs response: the
/// first resource of that name, where its error code is zero.
pub fn retrieve_topic_metadata(
    response: Response<describeconfigs_response::DescribeConfigsResponse>,
    topic_name: &String,
) -> (r: Result<describeconfigs_response::Resource, ApiRequestError>)
    ensures
        match first_resource(response.response_message.resources@, topic_name@, 0) {
            None => r matches Err(e) && e.error@ == "API response missing topic resource info"@,
            Some(i) => if response.response_message.resources@[i].error_code == 0 {
                r == Ok::<describeconfigs_response::Resource, ApiRequestError>(
                    response.response_message.resources@[i],
                )
            } else {
                r matches Err(e) && e.error@ == "Error describing config. "@ + text_or_empty(
                    response.response_message.resources@[i].error_message,
                )
            },
        },
{
    let mut resources = response.response_message.resources;
    let ghost rs = resources@;
    proof {
        lemma_first_resource_in_range(rs, topic_name@, 0);
    }
    let mut j: usize = 0;
    while j < resources.len()
        invariant
            resources@ == rs,
            rs == response.response_message.resources@,
            j <= rs.len(),
            first_resource(rs, topic_name@, 0) == first_resource(rs, topic_name@, j as int),
        decreases rs.len() - j,
    {
        if resources[j].resource_name == *topic_name {
            let resource = resources.remove(j);
            if resource.error_code == 0 {
                return Ok(resource);
            } else {
                proof {
                    reveal_strlit("Error describing config. ");
                }
                let mut text = String::from_str("Error describing config. ");
                match &resource.error_message {
                    Some(m) => text.append(m.as_str()),
                    None => {},
                }
                return Err(ApiRequestError::of(text));
            }
        }
        j = j + 1;
    }
    proof {
        reveal_strlit("API response missing topic resource info");
    }
    Err(ApiRequestError::from("API response missing topic resource info"))
}

// ---------------------------------------------------------------------------
// Partition offsets
// ---------------------------------------------------------------------------

/// The leaders of the partitions, each once, in order of first appearance.
pub open spec fn leader_seq(ps: Seq<PartitionMetadata>) -> Seq<i32>
    decreases ps.len(),
{
    if ps.len() == 0 {
        seq![]
    } else {
        let prev = leader_seq(ps.drop_last());
        if prev.contains(ps.last().leader) {
            prev
        } else {
            prev.push(ps.last().leader)
        }
    }
}

/// The ids of the partitions that `leader` leads, in order.
pub open spec fn led_by(ps: Seq<PartitionMetadata>, leader: i32) -> Seq<i32>
    decreases ps.len(),
{
    if ps.len() == 0 {
        seq![]
    } else {
        led_by(ps.drop_last(), leader) + if ps.last().leader == leader {
            seq![ps.last().partition]
        } else {
            seq![]
        }
    }
}

fn contains_i32(v: &Vec<i32>, x: i32) -> (r: bool)
    ensures
        r == v@.contains(x),
{
    let mut i: usize = 0;
    while i < v.len()
        invariant
            i <= v@.len(),
            forall|k: int| 0 <= k < i ==> v@[k] != x,
        decreases v@.len() - i,
    {
        if v[i] == x {
            return true;
        }
        i = i + 1;
    }
    false
}

/// The leaders of the partitions, each once, in order of first appearance.
pub fn leaders(ps: &Vec<PartitionMetadata>) -> (r: Vec<i32>)
    ensures
        r@ == leader_seq(ps@),
{
    let mut out: Vec<i32> = Vec::new();
    let mut i: usize = 0;
    while i < ps.len()
        invariant
            i <= ps@.len(),
            out@ == leader_seq(ps@.take(i as int)),
        decreases ps@.len() - i,
    {
        assert(ps@.take(i + 1).drop_last() =~= ps@.take(i as int));
        let l = ps[i].leader;
        if !contains_i32(&out, l) {
            out.push(l);
        }
        i = i + 1;
    }
    assert(ps@.take(ps@.len() as int) =~= ps@);
    out
}

/// The ids of the partitions that `leader` leads, in order.
pub fn partitions_led_by(ps: &Vec<PartitionMetadata>, leader: i32) -> (r: Vec<i32>)
    ensures
        r@ == led_by(ps@, leader),
{
    let mut out: Vec<i32> = Vec::new();
    let mut i: usize = 0;
    while i < ps.len()
        invariant
            i <= ps@.len(),
            out@ == led_by(ps@.take(i as int), leader),
        decreases ps@.len() - i,
    {
        assert(ps@.take(i + 1).drop_last() =~= ps@.take(i as int));
        if ps[i].leader == leader {
            out.push(ps[i].partition);
        }
        proof {
            assert(out@ =~= led_by(ps@.take(i + 1), leader));
        }
        i = i + 1;
    }
    assert(ps@.take(ps@.len() as int) =~= ps@);
    out
}

/// The ListOffsets request for the latest offset of each partition in `ids`.
pub open spec fn asks_latest(t: listoffsets_request::Topic, topic: Seq<char>, ids: Seq<i32>) -> bool {
    &&& t.topic@ == topic
    &&& t.partitions@.len() == ids.len()
    &&& forall|k: int|
        0 <= k < ids.len() ==> (#[trigger] t.partitions@[k]).partition == ids[k]
            && t.partitions@[k].timestamp == -1
}

fn latest_offsets_topic(topic: &String, ids: &Vec<i32>) -> (r: listoffsets_request::Topic)
    ensures
        asks_latest(r, topic@, ids@),
{
    let mut partitions: Vec<listoffsets_request::Partition> = Vec::new();
    let mut i: usize = 0;
    while i < ids.len()
        invariant
            i <= ids@.len(),
            partitions@.len() == i,
            forall|k: int|
                0 <= k < i ==> (#[trigger] partitions@[k]).partition == ids@[k]
                    && partitions@[k].timestamp == -1,
        decreases ids@.len() - i,
    {
        partitions.push(listoffsets_request::Partition { partition: ids[i], timestamp: -1 });
        i = i + 1;
    }
    listoffsets_request::Topic { topic: topic.clone(), partitions }
}

/// One ListOffsets call per leader of the topic's partitions, sent to that
/// leader (or to the bootstrap broker where the snapshot does not list it),
/// asking for the latest offset of each partition it leads.
pub fn retrieve_partition_metadata_and_offsets(
    metadata: &MetadataResponse,
    topic_metadata: &TopicMetadata,
    bootstrap_server: &BootstrapServer,
) -> (r: Vec<(BootstrapServer, Request<listoffsets_request::ListOffsetsRequest>)>)
    ensures
        r@.len() == leader_seq(topic_metadata.partition_metadata@).len(),
        forall|k: int|
            0 <= k < r@.len() ==> {
                let leader = leader_seq(topic_metadata.partition_metadata@)[k];
                let (address, request) = #[trigger] r@[k];
                &&& match first_broker(metadata.brokers@, leader, 0) {
                    Some(b) => address.domain@ == metadata.brokers@[b].host@ && address.port
                        == metadata.brokers@[b].port,
                    None => address.domain@ == bootstrap_server.domain@ && address.port
                        == bootstrap_server.port,
                }
                &&& address.use_tls == bootstrap_server.use_tls
                &&& request.header.api_key == 2 && request.header.api_version == 2
                &&& request.request_message.replica_id == -1
                &&& request.request_message.isolation_level == 0
                &&& request.request_message.topics@.len() == 1
                &&& asks_latest(
                    request.request_message.topics@[0],
                    topic_metadata.topic@,
                    led_by(topic_metadata.partition_metadata@, leader),
                )
            },
{
    let ps = &topic_metadata.partition_metadata;
    let ls = leaders(ps);
    let mut out: Vec<(BootstrapServer, Request<listoffsets_request::ListOffsetsRequest>)> = Vec::new();
    let mut i: usize = 0;
    while i < ls.len()
        invariant
            i <= ls@.len(),
            ls@ == leader_seq(ps@),
            out@.len() == i,
            forall|k: int|
                0 <= k < i ==> {
                    let leader = ls@[k];
                    let (address, request) = #[trigger] out@[k];
                    &&& match first_broker(metadata.brokers@, leader, 0) {
                        Some(b) => address.domain@ == metadata.brokers@[b].host@ && address.port
                            == metadata.brokers@[b].port,
                        None => address.domain@ == bootstrap_server.domain@ && address.port
                            == bootstrap_server.port,
                    }
                    &&& address.use_tls == bootstrap_server.use_tls
                    &&& request.header.api_key == 2 && request.header.api_version == 2
                    &&& request.request_message.replica_id == -1
                    &&& request.request_message.isolation_level == 0
                    &&& request.request_message.topics@.len() == 1
                    &&& asks_latest(
                        request.request_message.topics@[0],
                        topic_metadata.topic@,
                        led_by(ps@, leader),
                    )
                },
        decreases ls@.len() - i,
    {
        let leader = ls[i];
        proof {
            lemma_first_broker_in_range(metadata.brokers@, leader, 0);
        }
        let address = match find_broker(&metadata.brokers, leader) {
            Some(b) => address_of(&metadata.brokers[b].host, metadata.brokers[b].port, bootstrap_server.use_tls),
            None => bootstrap_server.duplicate(),
        };
        let ids = partitions_led_by(ps, leader);
        let topic = latest_offsets_topic(&topic_metadata.topic, &ids);
        let request = Request::of(
            listoffsets_request::ListOffsetsRequest {
                replica_id: -1,
                isolation_level: 0,
                topics: vec![topic],
            },
        );
        let ghost new_entry = (address, request);
        proof {
            let (a2, r2) = new_entry;
            assert(r2.request_message.topics@[0] == topic);
            assert(asks_latest(r2.request_message.topics@[0], topic_metadata.topic@, led_by(ps@, leader)));
        }
        out.push((address, request));
        proof {
            assert(out@[i as int] == new_entry);
        }
        i = i + 1;
    }
    out
}

/// The partition offsets that a run of ListOffsets answers gives, in order:
/// of each answer, those of its first topic. `None` where a call failed or an
/// answer lists no topic.
pub open spec fn offsets_of(
    rs: Seq<Result<Response<listoffsets_response::ListOffsetsResponse>, ApiRequestError>>,
) -> Option<Seq<listoffsets_response::PartitionResponseModel>>
    decreases rs.len(),
{
    if rs.len() == 0 {
        Some(seq![])
    } else {
        match (offsets_of(rs.drop_last()), rs.last()) {
            (Some(prev), Ok(resp)) => if resp.response_message.responses@.len() > 0 {
                Some(prev + resp.response_message.responses@[0].partition_responses.deep_view())
            } else {
                None
            },
            _ => None,
        }
    }
}

/// The latest offsets from the ListOffsets answers, or the first failure.
pub fn partition_offsets_from(
    responses: &Vec<Result<Response<listoffsets_response::ListOffsetsResponse>, ApiRequestError>>,
) -> (r: Result<Vec<listoffsets_response::PartitionResponse>, ApiRequestError>)
    ensures
        match offsets_of(responses@) {
            Some(o) => r is Ok && r.unwrap().deep_view() == o,
            None => r is Err,
        },
{
    let mut out: Vec<listoffsets_response::PartitionResponse> = Vec::new();
    let mut i: usize = 0;
    while i < responses.len()
        invariant
            i <= responses@.len(),
            offsets_of(responses@.take(i as int)) == Some(out.deep_view()),
        decreases responses@.len() - i,
    {
        assert(responses@.take(i + 1).drop_last() =~= responses@.take(i as int));
        assert(responses@.take(i + 1).last() == responses@[i as int]);
        match &responses[i] {
            Ok(resp) => {
                if resp.response_message.responses.len() == 0 {
                    proof {
                        lemma_offsets_none_extends(responses@, i as int + 1);
                    }
                    return Err(ApiRequestError::from("ListOffsets API did not return any topic offsets"));
                }
                let mut more = resp.response_message.responses[0].partition_responses.duplicate();
                let ghost before = out.deep_view();
                out.append(&mut more);
                proof {
                    assert(out.deep_view() =~= before + resp.response_message.responses@[0].partition_responses.deep_view());
                }
            },
            Err(e) => {
                proof {
                    lemma_offsets_none_extends(responses@, i as int + 1);
                }
                return Err(ApiRequestError::of(e.error.clone()));
            },
        }
        i = i + 1;
    }
    assert(responses@.take(responses@.len() as int) =~= responses@);
    Ok(out)
}

proof fn lemma_offsets_none_extends(
    rs: Seq<Result<Response<listoffsets_response::ListOffsetsResponse>, ApiRequestError>>,
    k: int,
)
    requires
        0 <= k <= rs.len(),
        offsets_of(rs.take(k)) is None,
    ensures
        offsets_of(rs) is None,
    decreases rs.len() - k,
{
    if k < rs.len() {
        assert(rs.take(k + 1).drop_last() =~= rs.take(k));
        lemma_offsets_none_extends(rs, k + 1);
    } else {
        assert(rs.take(k) =~= rs);
    }
}

// ---------------------------------------------------------------------------
// Consumer offsets
// ---------------------------------------------------------------------------

/// The OffsetFetch call for the topic's partitions, sent to the group's
/// coordinator.
pub fn offset_fetch_request(
    consumer_group: &ConsumerGroup,
    topic_metadata: &TopicMetadata,
    use_tls: bool,
) -> (r: (BootstrapServer, Request<offsetfetch_request::OffsetFetchRequest>))
    ensures
        r.0.domain@ == consumer_group.1.host@,
        r.0.port == consumer_group.1.port,
        r.0.use_tls == use_tls,
        r.1.header.api_key == 9 && r.1.header.api_version == 3,
        r.1.request_message.group_id@ == consumer_group.0@,
        r.1.request_message.topics@.len() == 1,
        r.1.request_message.topics@[0].topic@ == topic_metadata.topic@,
        r.1.request_message.topics@[0].partitions@ == topic_metadata.partition_metadata@.map_values(
            |p: PartitionMetadata| p.partition,
        ),
{
    let ps = &topic_metadata.partition_metadata;
    let mut ids: Vec<i32> = Vec::new();
    let mut i: usize = 0;
    while i < ps.len()
        invariant
            i <= ps@.len(),
            ids@ == ps@.take(i as int).map_values(|p: PartitionMetadata| p.partition),
        decreases ps@.len() - i,
    {
        ids.push(ps[i].partition);
        proof {
            assert(ids@ =~= ps@.take(i + 1).map_values(|p: PartitionMetadata| p.partition));
        }
        i = i + 1;
    }
    assert(ps@.take(ps@.len() as int) =~= ps@);
    let topic = offsetfetch_request::Topic { topic: topic_metadata.topic.clone(), partitions: ids };
    let address = address_of(&consumer_group.1.host, consumer_group.1.port, use_tls);
    let request = Request::of(
        offsetfetch_request::OffsetFetchRequest {
            group_id: consumer_group.0.clone(),
            topics: vec![topic],
        },
    );
    (address, request)
}

/// The first topic answer from index `j` on named `topic`.
pub open spec fn first_topic_answer(rs: Seq<offsetfetch_response::Response>, topic: Seq<char>, j: int) -> Option<int>
    decreases rs.len() - j,
{
    if j < 0 || j >= rs.len() {
        None
    } else if rs[j].topic@ == topic {
        Some(j)
    } else {
        first_topic_answer(rs, topic, j + 1)
    }
}

proof fn lemma_first_topic_answer_in_range(rs: Seq<offsetfetch_response::Response>, topic: Seq<char>, j: int)
    ensures
        first_topic_answer(rs, topic, j) is Some ==> j <= first_topic_answer(rs, topic, j).unwrap() < rs.len(),
    decreases rs.len() - j,
{
    if 0 <= j < rs.len() {
        lemma_first_topic_answer_in_range(rs, topic, j + 1);
    }
}

/// The group's committed offsets of `topic` in an OffsetFetch answer: a
/// non-zero error code, or no answer for the topic, is a failure.
pub fn retrieve_consumer_offsets(
    response: Response<offsetfetch_response::OffsetFetchResponse>,
    topic: &String,
) -> (r: Result<Vec<offsetfetch_response::PartitionResponse>, ApiRequestError>)
    ensures
        if response.response_message.error_code != 0 {
            r is Err
        } else {
            match first_topic_answer(response.response_message.responses@, topic@, 0) {
                Some(i) => r == Ok::<Vec<offsetfetch_response::PartitionResponse>, ApiRequestError>(
                    response.response_message.responses@[i].partition_responses,
                ),
                None => r is Err,
            }
        },
{
    if response.response_message.error_code != 0 {
        return Err(ApiRequestError::from("Non-zero error code with OffsetFetchRequest"));
    }
    let mut answers = response.response_message.responses;
    let ghost rs = answers@;
    proof {
        lemma_first_topic_answer_in_range(rs, topic@, 0);
    }
    let mut j: usize = 0;
    while j < answers.len()
        invariant
            answers@ == rs,
            rs == response.response_message.responses@,
            response.response_message.error_code == 0,
            j <= rs.len(),
            first_topic_answer(rs, topic@, 0) == first_topic_answer(rs, topic@, j as int),
        decreases rs.len() - j,
    {
        if answers[j].topic == *topic {
            let answer = answers.remove(j);
            return Ok(answer.partition_responses);
        }
        j = j + 1;
    }
    Err(ApiRequestError::from("Topic not returned from API request"))
}

// ---------------------------------------------------------------------------
// Configuration changes
// ---------------------------------------------------------------------------

/// A configuration entry as its name and value.
pub type ConfigPair = (Seq<char>, Option<Seq<char>>);

/// The topic-level overrides among `es`, as name and value, but the entry
/// named `name`.
pub open spec fn overrides(es: Seq<ConfigEntryModel>, name: Seq<char>) -> Seq<ConfigPair>
    decreases es.len(),
{
    if es.len() == 0 {
        seq![]
    } else {
        overrides(es.drop_last(), name) + if es.last().config_source == 1 && es.last().config_name
            != name {
            seq![(es.last().config_name, es.last().config_value)]
        } else {
            seq![]
        }
    }
}

/// The entries of an AlterConfigs resource as name and value.
pub open spec fn entry_pairs(v: Seq<alterconfigs_request::ConfigEntry>) -> Seq<ConfigPair> {
    v.map_values(
        |e: alterconfigs_request::ConfigEntry| (e.config_name@, option_string_model(e.config_value)),
    )
}

/// `req` sets the overrides of topic `topic` to exactly `pairs`.
pub open spec fn alters(req: Request<alterconfigs_request::AlterConfigsRequest>, topic: Seq<char>, pairs: Seq<ConfigPair>) -> bool {
    &&& req.header.api_key == 33 && req.header.api_version == 0
    &&& !req.request_message.validate_only
    &&& req.request_message.resources@.len() == 1
    &&& req.request_message.resources@[0].resource_type == 2
    &&& req.request_message.resources@[0].resource_name@ == topic
    &&& entry_pairs(req.request_message.resources@[0].config_entries@) == pairs
}

/// The topic-level overrides among `entries`, but the one named `name`.
pub fn overrides_except(entries: &Vec<describeconfigs_response::ConfigEntry>, name: &String) -> (r: Vec<
    alterconfigs_request::ConfigEntry,
>)
    ensures
        entry_pairs(r@) == overrides(entries.deep_view(), name@),
{
    let topic_config = ConfigSource::TopicConfig.code();
    let ghost es = entries.deep_view();
    let mut out: Vec<alterconfigs_request::ConfigEntry> = Vec::new();
    let mut i: usize = 0;
    while i < entries.len()
        invariant
            i <= entries@.len(),
            es == entries.deep_view(),
            topic_config == 1,
            entry_pairs(out@) == overrides(es.take(i as int), name@),
        decreases entries@.len() - i,
    {
        assert(es.take(i + 1).drop_last() =~= es.take(i as int));
        assert(es.take(i + 1).last() == entries@[i as int].deep_view());
        let e = &entries[i];
        let ghost before = out@;
        if e.config_source == topic_config && !(e.config_name == *name) {
            out.push(
                alterconfigs_request::ConfigEntry {
                    config_name: e.config_name.clone(),
                    config_value: e.config_value.duplicate(),
                },
            );
            proof {
                assert(entry_pairs(out@) =~= entry_pairs(before) + seq![
                    (e.config_name@, e.config_value.deep_view()),
                ]);
            }
        } else {
            proof {
                assert(entry_pairs(out@) =~= entry_pairs(before) + Seq::<ConfigPair>::empty());
            }
        }
        i = i + 1;
    }
    assert(es.take(entries@.len() as int) =~= es);
    out
}

fn alter_request(topic: &String, entries: Vec<alterconfigs_request::ConfigEntry>) -> (r: Request<
    alterconfigs_request::AlterConfigsRequest,
>)
    ensures
        alters(r, topic@, entry_pairs(entries@)),
{
    let resource = alterconfigs_request::Resource {
        resource_type: ResourceTypes::Topic.code(),
        resource_name: topic.clone(),
        config_entries: entries,
    };
    Request::of(alterconfigs_request::AlterConfigsRequest { resources: vec![resource], validate_only: false })
}

/// What deleting in the current view does: a topic goes to the controller
/// broker as DeleteTopics; a configuration entry is reset by an
/// AlterConfigs that keeps every other override.
#[derive(Debug)]
pub enum DeletePlan {
    Topic(BootstrapServer, Request<DeleteTopicsRequest>, String),
    Config(BootstrapServer, Request<alterconfigs_request::AlterConfigsRequest>, String),
}

/// The deletion that the current view and cursor call for, or why there is
/// none.
pub fn plan_delete(state: &State, bootstrap_server: &BootstrapServer, request_timeout_ms: i32) -> (r:
    Result<DeletePlan, StateFNError>)
    ensures
        match state.current_view {
            CurrentView::Partitions | CurrentView::HelpScreen => r is Err,
            CurrentView::Topics => match state.metadata {
                None => r is Err,
                Some(m) => if state.selected_index >= m.topic_metadata@.len() {
                    r is Err
                } else {
                    let t = m.topic_metadata@[state.selected_index as int];
                    if t.is_internal {
                        r is Err
                    } else {
                        match first_broker(m.brokers@, m.controller_id, 0) {
                            None => r is Err,
                            Some(c) => r matches Ok(DeletePlan::Topic(a, req, n)) && n@ == t.topic@
                                && a.domain@ == m.brokers@[c].host@ && a.port == m.brokers@[c].port
                                && a.use_tls == bootstrap_server.use_tls && req.header.api_key == 20
                                && req.header.api_version == 1 && req.request_message.topics@.len()
                                == 1 && req.request_message.topics@[0]@ == t.topic@
                                && req.request_message.timeout == request_timeout_ms,
                        }
                    }
                },
            },
            CurrentView::TopicInfo => match state.topic_info_state {
                None => r is Err,
                Some(ti) => if ti.selected_index >= ti.config_resource.config_entries@.len() {
                    r is Err
                } else {
                    let n = ti.config_resource.config_entries@[ti.selected_index as int].config_name@;
                    r matches Ok(DeletePlan::Config(a, req, name)) && name@ == n && a.domain@
                        == bootstrap_server.domain@ && a.port == bootstrap_server.port && a.use_tls
                        == bootstrap_server.use_tls && alters(
                        req,
                        ti.topic_metadata.topic@,
                        overrides(ti.config_resource.config_entries.deep_view(), n),
                    )
                },
            },
        },
{
    match state.current_view {
        CurrentView::Partitions => Err(StateFNError::error("Partition deletion not supported")),
        CurrentView::HelpScreen => Err(StateFNError::error("You can't delete this...")),
        CurrentView::Topics => {
            let m = match &state.metadata {
                Some(m) => m,
                None => return Err(StateFNError::error("Topic metadata not available")),
            };
            if state.selected_index >= m.topic_metadata.len() {
                return Err(StateFNError::error("Could not select or find topic to delete"));
            }
            let t = &m.topic_metadata[state.selected_index];
            if t.is_internal {
                return Err(StateFNError::error("Can not delete internal topics"));
            }
            match controller_broker(m) {
                None => Err(StateFNError::error("Could not find Kafka controller host from Metadata")),
                Some(c) => {
                    let address = address_of(&c.host, c.port, bootstrap_server.use_tls);
                    let request = Request::of(
                        DeleteTopicsRequest { topics: vec![t.topic.clone()], timeout: request_timeout_ms },
                    );
                    Ok(DeletePlan::Topic(address, request, t.topic.clone()))
                },
            }
        },
        CurrentView::TopicInfo => {
            let ti = match &state.topic_info_state {
                Some(ti) => ti,
                None => return Err(StateFNError::error("Topic metadata not available")),
            };
            if ti.selected_index >= ti.config_resource.config_entries.len() {
                return Err(StateFNError::error("Error trying to modify selected config"));
            }
            let name = &ti.config_resource.config_entries[ti.selected_index].config_name;
            let entries = overrides_except(&ti.config_resource.config_entries, name);
            let request = alter_request(&ti.topic_metadata.topic, entries);
            Ok(DeletePlan::Config(bootstrap_server.duplicate(), request, name.clone()))
        },
    }
}

/// The AlterConfigs call that sets the selected entry of the topic to
/// `new_value` and keeps every other override, with the entry's name.
pub fn plan_modify(state: &State, bootstrap_server: &BootstrapServer, new_value: Option<String>) -> (r:
    Result<(BootstrapServer, Request<alterconfigs_request::AlterConfigsRequest>, String), StateFNError>)
    ensures
        match state.current_view {
            CurrentView::TopicInfo => match state.topic_info_state {
                None => r is Err,
                Some(ti) => if ti.selected_index >= ti.config_resource.config_entries@.len() {
                    r is Err
                } else {
                    let n = ti.config_resource.config_entries@[ti.selected_index as int].config_name@;
                    r matches Ok((a, req, name)) && name@ == n && a.domain@ == bootstrap_server.domain@
                        && a.port == bootstrap_server.port && a.use_tls == bootstrap_server.use_tls
                        && alters(
                        req,
                        ti.topic_metadata.topic@,
                        overrides(ti.config_resource.config_entries.deep_view(), n).push(
                            (n, option_string_model(new_value)),
                        ),
                    )
                },
            },
            _ => r is Err,
        },
{
    match state.current_view {
        CurrentView::Topics => Err(StateFNError::error("Modifications not supported for topics")),
        CurrentView::Partitions => Err(StateFNError::error("Modifications not supported for partitions")),
        CurrentView::HelpScreen => Err(StateFNError::error("You can't modify this...")),
        CurrentView::TopicInfo => {
            let ti = match &state.topic_info_state {
                Some(ti) => ti,
                None => return Err(StateFNError::error("Topic info not available")),
            };
            if ti.selected_index >= ti.config_resource.config_entries.len() {
                return Err(StateFNError::error("Error trying to modify selected config"));
            }
            let name = &ti.config_resource.config_entries[ti.selected_index].config_name;
            let mut entries = overrides_except(&ti.config_resource.config_entries, name);
            let ghost before = entries@;
            let value_model = Ghost(option_string_model(new_value));
            entries.push(alterconfigs_request::ConfigEntry { config_name: name.clone(), config_value: new_value });
            proof {
                assert(entry_pairs(entries@) =~= entry_pairs(before).push((name@, value_model@)));
            }
            let request = alter_request(&ti.topic_metadata.topic, entries);
            Ok((bootstrap_server.duplicate(), request, name.clone()))
        },
    }
}

/// Every topic in a DeleteTopics answer has error code zero.
pub open spec fn all_deleted(r: DeleteTopicsResponse) -> bool {
    forall|i: int| 0 <= i < r.topic_error_codes@.len() ==> (#[trigger] r.topic_error_codes@[i]).error_code == 0
}

/// The deletion of topic `name`, where the call succeeded and every error
/// code it returned is zero.
pub fn delete_topic(
    result: Result<Response<DeleteTopicsResponse>, ApiRequestError>,
    name: String,
) -> (r: Result<Deletion, StateFNError>)
    ensures
        match result {
            Ok(resp) => if all_deleted(resp.response_message) {
                r matches Ok(Deletion::Topic(n)) && n == name
            } else {
                r is Err
            },
            Err(_) => r is Err,
        },
{
    match result {
        Err(e) => Err(StateFNError::caused("Failed to delete topic", e.error)),
        Ok(resp) => {
            let codes = &resp.response_message.topic_error_codes;
            let mut i: usize = 0;
            while i < codes.len()
                invariant
                    i <= codes@.len(),
                    result matches Ok(r0) && r0.response_message.topic_error_codes@ == codes@,
                    forall|k: int| 0 <= k < i ==> (#[trigger] codes@[k]).error_code == 0,
                decreases codes@.len() - i,
            {
                if codes[i].error_code != 0 {
                    return Err(
                        StateFNError::caused(
                            "Failed to delete topic",
                            String::from_str("Non-zero topic error code encountered"),
                        ),
                    );
                }
                i = i + 1;
            }
            Ok(Deletion::Topic(name))
        },
    }
}

/// Whether an AlterConfigs call took: it succeeded, and the first resource
/// it reports on has error code zero.
pub fn alter_config(result: Result<Response<AlterConfigsResponse>, ApiRequestError>) -> (r: Result<
    (),
    StateFNError,
>)
    ensures
        r is Ok <==> (result matches Ok(resp) && resp.response_message.resources@.len() > 0
            && resp.response_message.resources@[0].error_code == 0),
        match result {
            Err(e) => r matches Err(StateFNError::Caused(m, c)) && m@
                == "AlterConfigs request failed"@ && c@ == e.error@,
            Ok(resp) => if resp.response_message.resources@.len() == 0 {
                r matches Err(StateFNError::Error(m)) && m@
                    == "Missing resources from AlterConfigs request"@
            } else {
                let res = resp.response_message.resources@[0];
                res.error_code != 0 ==> (r matches Err(StateFNError::Error(m)) && m@
                    == "AlterConfigs request failed with error code "@ + decimal(
                    res.error_code as int,
                ) + ", "@ + text_or_empty(res.error_message))
            },
        },
{
    proof {
        reveal_strlit("AlterConfigs request failed");
        reveal_strlit("Missing resources from AlterConfigs request");
        reveal_strlit("AlterConfigs request failed with error code ");
        reveal_strlit(", ");
    }
    match result {
        Err(e) => Err(StateFNError::caused("AlterConfigs request failed", e.error)),
        Ok(resp) => {
            if resp.response_message.resources.len() == 0 {
                Err(StateFNError::error("Missing resources from AlterConfigs request"))
            } else if resp.response_message.resources[0].error_code != 0 {
                let mut text = String::from_str("AlterConfigs request failed with error code ");
                push_decimal(&mut text, resp.response_message.resources[0].error_code as i32);
                text.append(", ");
                match &resp.response_message.resources[0].error_message {
                    Some(m) => text.append(m.as_str()),
                    None => {},
                }
                Err(StateFNError::Error(text))
            } else {
                Ok(())
            }
        },
    }
}

// ---------------------------------------------------------------------------
// Topic creation
// ---------------------------------------------------------------------------

/// The CreateTopics call for `creation`, sent to the controller broker; only
/// the topic list has one.
pub fn plan_create(
    state: &State,
    bootstrap_server: &BootstrapServer,
    creation: &Creation,
    request_timeout_ms: i32,
) -> (r: Result<(BootstrapServer, Request<createtopics_request::CreateTopicsRequest>, String), StateFNError>)
    ensures
        match creation {
            Creation::Topic { name, partitions, replication_factor } => if state.current_view
                != CurrentView::Topics {
                r is Err
            } else {
                match state.metadata {
                    None => r is Err,
                    Some(m) => match first_broker(m.brokers@, m.controller_id, 0) {
                        None => r is Err,
                        Some(c) => r matches Ok((a, req, n)) && n@ == name@ && a.domain@
                            == m.brokers@[c].host@ && a.port == m.brokers@[c].port && a.use_tls
                            == bootstrap_server.use_tls && req.header.api_key == 19
                            && req.header.api_version == 1 && req.request_message.timeout
                            == request_timeout_ms && !req.request_message.validate_only
                            && req.request_message.create_topic_requests@.len() == 1 && {
                            let t = req.request_message.create_topic_requests@[0];
                            &&& t.topic@ == name@
                            &&& t.num_partitions == partitions
                            &&& t.replication_factor == replication_factor
                            &&& t.replica_assignments@.len() == 0
                            &&& t.config_entries@.len() == 0
                        },
                    },
                }
            },
        },
{
    match creation {
        Creation::Topic { name, partitions, replication_factor } => {
            if state.current_view != CurrentView::Topics {
                return Err(StateFNError::error("Cannot create topic here"));
            }
            let m = match &state.metadata {
                Some(m) => m,
                None => return Err(StateFNError::error("Topic metadata not available")),
            };
            match controller_broker(m) {
                None => Err(StateFNError::error("Could not find Kafka controller host from Metadata")),
                Some(c) => {
                    let address = address_of(&c.host, c.port, bootstrap_server.use_tls);
                    let topic = createtopics_request::TopicRequest {
                        topic: name.clone(),
                        num_partitions: *partitions,
                        replication_factor: *replication_factor,
                        replica_assignments: Vec::new(),
                        config_entries: Vec::new(),
                    };
                    let request = Request::of(
                        createtopics_request::CreateTopicsRequest {
                            create_topic_requests: vec![topic],
                            timeout: request_timeout_ms,
                            validate_only: false,
                        },
                    );
                    Ok((address, request, name.clone()))
                },
            }
        },
    }
}

/// Entry `i` of the answer reports an error for topic `name`.
pub open spec fn fails_at(r: CreateTopicsResponse, name: Seq<char>, i: int) -> bool {
    0 <= i < r.topic_errors@.len() && r.topic_errors@[i].topic@ == name
        && r.topic_errors@[i].error_code != 0
}

/// The answer reports an error for topic `name`.
pub open spec fn creation_failed(r: CreateTopicsResponse, name: Seq<char>) -> bool {
    exists|i: int| #[trigger] fails_at(r, name, i)
}

/// The message for a creation error: the code in parentheses, then the
/// broker's message.
pub open spec fn creation_error_text(e: TopicError) -> Seq<char> {
    "("@ + decimal(e.error_code as int) + ") "@ + match e.error_message {
        Some(m) => m@,
        None => "Unknown error"@,
    }
}

/// The created topic's name, where the call succeeded and reported no error
/// for that topic; otherwise the broker's error code and message.
pub fn create_topic(
    result: Result<Response<CreateTopicsResponse>, ApiRequestError>,
    name: String,
) -> (r: Result<String, StateFNError>)
    ensures
        match result {
            Ok(resp) => if creation_failed(resp.response_message, name@) {
                r matches Err(StateFNError::Error(m)) && exists|i: int|
                    #[trigger] fails_at(resp.response_message, name@, i) && (forall|k: int|
                        0 <= k < i ==> !fails_at(resp.response_message, name@, k)) && m@
                        == creation_error_text(resp.response_message.topic_errors@[i])
            } else {
                r == Ok::<String, StateFNError>(name)
            },
            Err(e) => r matches Err(StateFNError::Caused(m, c)) && m@ == "Error creating topic"@
                && c@ == e.error@,
        },
{
    proof {
        reveal_strlit("Error creating topic");
        reveal_strlit("(");
        reveal_strlit(") ");
        reveal_strlit("Unknown error");
    }
    match result {
        Err(e) => Err(StateFNError::caused("Error creating topic", e.error)),
        Ok(resp) => {
            let errors = &resp.response_message.topic_errors;
            let mut i: usize = 0;
            while i < errors.len()
                invariant
                    i <= errors@.len(),
                    result matches Ok(r0) && r0.response_message.topic_errors@ == errors@,
                    forall|k: int|
                        0 <= k < i ==> !((#[trigger] errors@[k]).topic@ == name@ && errors@[k].error_code
                            != 0),
                    "("@ == seq!['('],
                    ") "@ == seq![')', ' '],
                    "Unknown error"@ == seq!['U', 'n', 'k', 'n', 'o', 'w', 'n', ' ', 'e', 'r', 'r', 'o', 'r'],
                decreases errors@.len() - i,
            {
                if errors[i].topic == name && errors[i].error_code != 0 {
                    let mut text = String::from_str("(");
                    push_decimal(&mut text, errors[i].error_code as i32);
                    text.append(") ");
                    match &errors[i].error_message {
                        Some(m) => text.append(m.as_str()),
                        None => text.append("Unknown error"),
                    }
                    proof {
                        assert(fails_at(r0_msg(result), name@, i as int));
                    }
                    return Err(StateFNError::Error(text));
                }
                i = i + 1;
            }
            proof {
                assert forall|i: int| !fails_at(r0_msg(result), name@, i) by {
                    if 0 <= i < errors@.len() {
                        assert(!((errors@[i]).topic@ == name@ && errors@[i].error_code != 0));
                    }
                }
            }
            Ok(name)
        },
    }
}

/// The body of a successful answer.
pub open spec fn r0_msg(result: Result<Response<CreateTopicsResponse>, ApiRequestError>) -> CreateTopicsResponse {
    match result {
        Ok(r) => r.response_message,
        Err(_) => arbitrary(),
    }
}

// ---------------------------------------------------------------------------
// Refresh
// ---------------------------------------------------------------------------

/// What a refresh fetches besides the snapshot, by view: nothing more for
/// the topic list and help; offsets for the selected topic's partitions; the
/// configuration of the selected topic.
#[derive(Debug)]
pub enum FetchPlan {
    Topics,
    Partitions(TopicMetadata),
    TopicInfo(String),
}

/// The refresh that the current view calls for.
pub fn plan_fetch(state: &State) -> (r: Result<FetchPlan, StateFNError>)
    ensures
        match state.current_view {
            CurrentView::Topics | CurrentView::HelpScreen => r matches Ok(FetchPlan::Topics),
            CurrentView::Partitions => match state.metadata {
                Some(m) => if state.selected_index < m.topic_metadata@.len() {
                    r matches Ok(FetchPlan::Partitions(t)) && t.deep_view()
                        == m.topic_metadata@[state.selected_index as int].deep_view()
                } else {
                    r is Err
                },
                None => r is Err,
            },
            CurrentView::TopicInfo => match state.metadata {
                Some(m) => if state.selected_index < m.topic_metadata@.len() {
                    r matches Ok(FetchPlan::TopicInfo(n)) && n@
                        == m.topic_metadata@[state.selected_index as int].topic@
                } else {
                    r is Err
                },
                None => r is Err,
            },
        },
{
    match state.current_view {
        CurrentView::Topics | CurrentView::HelpScreen => Ok(FetchPlan::Topics),
        CurrentView::Partitions => match state.selected_topic_metadata() {
            Some(t) => Ok(FetchPlan::Partitions(t)),
            None => Err(StateFNError::error("Could not find selected topic metadata")),
        },
        CurrentView::TopicInfo => match state.selected_topic_name() {
            Some(n) => Ok(FetchPlan::TopicInfo(n)),
            None => Err(StateFNError::error("No topic selected")),
        },
    }
}

// ---------------------------------------------------------------------------
// Consumer group
// ---------------------------------------------------------------------------

/// The FindCoordinator request for a consumer group.
pub fn find_coordinator_request(group_id: &String) -> (r: Request<FindCoordinatorRequest>)
    ensures
        r.header.api_key == 10 && r.header.api_version == 1,
        r.request_message.coordinator_key@ == group_id@,
        r.request_message.coordinator_type == 0,
{
    Request::of(
        FindCoordinatorRequest {
            coordinator_key: group_id.clone(),
            coordinator_type: CoordinatorType::Group.code(),
        },
    )
}

/// The group with the coordinator the broker named, where it named one
/// without error.
pub fn consumer_group_from(response: Response<FindCoordinatorResponse>, group_id: String) -> (r: Option<
    ConsumerGroup,
>)
    ensures
        r is Some <==> response.response_message.error_code == 0,
        r matches Some(g) ==> g.0 == group_id && g.1 == response.response_message.coordinator,
{
    if response.response_message.error_code == 0 {
        Some(ConsumerGroup(group_id, response.response_message.coordinator))
    } else {
        None
    }
}

// ---------------------------------------------------------------------------
// Partition refresh
// ---------------------------------------------------------------------------

broadcast use vstd::std_specs::hash::group_hash_axioms;

/// A per-partition answer, keyed by its partition id.
pub trait Partitioned: Duplicate {
    spec fn key_of(m: <Self as DeepView>::V) -> i32;

    fn partition_id(&self) -> (r: i32)
        ensures
            r == Self::key_of(self.deep_view()),
    ;
}

impl Partitioned for listoffsets_response::PartitionResponse {
    open spec fn key_of(m: listoffsets_response::PartitionResponseModel) -> i32 {
        m.partition
    }

    fn partition_id(&self) -> (r: i32) {
        self.partition
    }
}

impl Partitioned for offsetfetch_response::PartitionResponse {
    open spec fn key_of(m: offsetfetch_response::PartitionResponseModel) -> i32 {
        m.partition
    }

    fn partition_id(&self) -> (r: i32) {
        self.partition
    }
}

/// The answers keyed by partition id; a later answer for the same partition
/// replaces an earlier one.
pub open spec fn by_partition<T: Partitioned>(s: Seq<<T as DeepView>::V>) -> Map<i32, <T as DeepView>::V>
    decreases s.len(),
{
    if s.len() == 0 {
        Map::empty()
    } else {
        by_partition::<T>(s.drop_last()).insert(T::key_of(s.last()), s.last())
    }
}

/// `m` holds, for each partition, the model that `by_partition` gives.
pub open spec fn keyed_as<T: Partitioned>(m: Map<i32, T>, s: Seq<<T as DeepView>::V>) -> bool {
    &&& m.dom() == by_partition::<T>(s).dom()
    &&& forall|k: i32| #[trigger] m.contains_key(k) ==> m[k].deep_view() == by_partition::<T>(s)[k]
}

/// The answers keyed by partition id.
pub fn index_by_partition<T: Partitioned>(v: &Vec<T>) -> (r: HashMap<i32, T>)
    ensures
        keyed_as(r@, v.deep_view()),
{
    let ghost s = v.deep_view();
    let mut m: HashMap<i32, T> = HashMap::new();
    let mut i: usize = 0;
    assert(s.take(0) =~= seq![]);
    assert(m@.dom() =~= by_partition::<T>(s.take(0)).dom());
    while i < v.len()
        invariant
            i <= v@.len(),
            s == v.deep_view(),
            keyed_as(m@, s.take(i as int)),
        decreases v@.len() - i,
    {
        let k = v[i].partition_id();
        let x = v[i].duplicate();
        let ghost before = m@;
        m.insert(k, x);
        proof {
            let t1 = s.take(i + 1);
            assert(t1.drop_last() =~= s.take(i as int));
            assert(t1.last() == v@[i as int].deep_view());
            assert(m@.dom() =~= by_partition::<T>(t1).dom());
        }
        i = i + 1;
    }
    assert(s.take(v@.len() as int) =~= s);
    m
}

/// The OffsetFetch answer is usable for `topic`: the call succeeded, its
/// error code is zero and it answers for the topic. No call is fine too.
pub open spec fn consumer_answer_ok(
    c: Option<Result<Response<offsetfetch_response::OffsetFetchResponse>, ApiRequestError>>,
    topic: Seq<char>,
) -> bool {
    match c {
        None => true,
        Some(Err(_)) => false,
        Some(Ok(resp)) => resp.response_message.error_code == 0 && first_topic_answer(
            resp.response_message.responses@,
            topic,
            0,
        ) is Some,
    }
}

/// The committed offsets an OffsetFetch answer gives for `topic`; none
/// without a call.
pub open spec fn consumer_answer(
    c: Option<Result<Response<offsetfetch_response::OffsetFetchResponse>, ApiRequestError>>,
    topic: Seq<char>,
) -> Seq<offsetfetch_response::PartitionResponseModel> {
    match c {
        Some(Ok(resp)) => resp.response_message.responses@[first_topic_answer(
            resp.response_message.responses@,
            topic,
            0,
        ).unwrap()].partition_responses.deep_view(),
        _ => seq![],
    }
}

/// What a partition refresh brings: the snapshot, the topic's partitions
/// sorted by id, the latest offset of each partition from the ListOffsets
/// answers, and the group's committed offsets from the OffsetFetch answer,
/// if one was asked. Any failed call, or an answer without the topic, is a
/// failure.
pub fn partitions_metadata(
    metadata: MetadataResponse,
    topic_metadata: TopicMetadata,
    offsets: &Vec<Result<Response<listoffsets_response::ListOffsetsResponse>, ApiRequestError>>,
    consumer: Option<Result<Response<offsetfetch_response::OffsetFetchResponse>, ApiRequestError>>,
) -> (r: Result<MetadataPayload, StateFNError>)
    ensures
        r is Ok <==> offsets_of(offsets@) is Some && consumer_answer_ok(consumer, topic_metadata.topic@),
        r matches Ok(payload) ==> (payload matches MetadataPayload::PartitionsMetadata(m, pm, offs, cons)
            && m == metadata && pm@.to_multiset() == topic_metadata.partition_metadata@.to_multiset()
            && partitions_sorted(pm@) && keyed_as(offs@, offsets_of(offsets@).unwrap())
            && keyed_as(cons@, consumer_answer(consumer, topic_metadata.topic@))),
{
    let latest = match partition_offsets_from(offsets) {
        Ok(v) => v,
        Err(e) => return Err(StateFNError::caused("Error retrieving partition metadata", e.error)),
    };
    let ghost topic = topic_metadata.topic@;
    let committed: Vec<offsetfetch_response::PartitionResponse> = match consumer {
        None => Vec::new(),
        Some(Err(e)) => return Err(StateFNError::caused("Error retrieving partition metadata", e.error)),
        Some(Ok(resp)) => {
            proof {
                lemma_first_topic_answer_in_range(resp.response_message.responses@, topic, 0);
            }
            match retrieve_consumer_offsets(resp, &topic_metadata.topic) {
                Ok(v) => v,
                Err(e) => return Err(StateFNError::caused("Error retrieving partition metadata", e.error)),
            }
        },
    };
    assert(committed.deep_view() =~= consumer_answer(consumer, topic));
    let offs = index_by_partition(&latest);
    let cons = index_by_partition(&committed);
    let pm = sort_partitions(topic_metadata.partition_metadata);
    Ok(MetadataPayload::PartitionsMetadata(metadata, pm, offs, cons))
}

} // verus!
