use topiks::operations::consumer_group_from;
use topiks::operations::find_coordinator_request;
use topiks::protocol_responses::findcoordinator_response::FindCoordinatorResponse;
use topiks::api_client::ApiRequestError;
use topiks::api_client::BootstrapServer;
use topiks::event_bus::move_cursor;
use topiks::event_bus::select;
use topiks::event_bus::to_event;
use topiks::event_bus::update_state;
use topiks::event_bus::ConsumerGroup;
use topiks::event_bus::Creation;
use topiks::event_bus::Event;
use topiks::event_bus::Message;
use topiks::event_bus::MetadataPayload;
use topiks::event_bus::MoveSelection;
use topiks::event_bus::Operation;
use topiks::event_bus::TopicQuery;
use topiks::event_bus::Translation;
use topiks::operations::create_topic;
use topiks::operations::offset_fetch_request;
use topiks::operations::partition_offsets_from;
use topiks::operations::plan_create;
use topiks::operations::partitions_metadata;
use topiks::operations::plan_fetch;
use topiks::operations::retrieve_consumer_offsets;
use topiks::operations::retrieve_partition_metadata_and_offsets;
use topiks::operations::retrieve_topic_metadata;
use topiks::operations::FetchPlan;
use topiks::protocol_response::Response;
use topiks::protocol_response::ResponseHeader;
use topiks::protocol_responses::createtopics_response::CreateTopicsResponse;
use topiks::protocol_responses::createtopics_response::TopicError;
use topiks::protocol_responses::describeconfigs_response;
use topiks::protocol_responses::findcoordinator_response::Coordinator;
use topiks::protocol_responses::listoffsets_response;
use topiks::protocol_responses::metadata_response::BrokerMetadata;
use topiks::protocol_responses::metadata_response::MetadataResponse;
use topiks::protocol_responses::metadata_response::PartitionMetadata;
use topiks::protocol_responses::metadata_response::TopicMetadata;
use topiks::protocol_responses::offsetfetch_response;
use topiks::sorting::sort_partitions;
use topiks::state::CurrentView;
use topiks::state::DialogMessage;
use topiks::state::State;

fn respond<T>(message: T) -> Response<T> {
    Response { header: ResponseHeader { correlation_id: 42 }, response_message: message }
}

fn partition(id: i32, leader: i32) -> PartitionMetadata {
    PartitionMetadata { error_code: 0, partition: id, leader, replicas: vec![leader], isr: vec![leader], offline_replicas: vec![] }
}

fn state_with(names: &[&str]) -> State {
    let mut state = State::new();
    state.metadata = Some(MetadataResponse {
        throttle_time_ms: 0,
        brokers: vec![BrokerMetadata { node_id: 1, host: "b1".to_string(), port: 9001, rack: None }],
        cluster_id: None,
        controller_id: 1,
        topic_metadata: names
            .iter()
            .map(|n| TopicMetadata {
                error_code: 0,
                topic: n.to_string(),
                is_internal: false,
                partition_metadata: vec![partition(1, 1), partition(0, 2), partition(2, 1)],
            })
            .collect(),
    });
    state
}

#[test]
fn cursor_stays_on_the_list() {
    for dir in [MoveSelection::Up, MoveSelection::PageUp, MoveSelection::Top] {
        assert_eq!(0, move_cursor(5, 0, dir, None));
    }
    for dir in [MoveSelection::Down, MoveSelection::PageDown, MoveSelection::Bottom] {
        assert_eq!(4, move_cursor(5, 4, dir, None));
    }
    assert_eq!(14, move_cursor(30, 4, MoveSelection::PageDown, None));
    assert_eq!(29, move_cursor(30, 25, MoveSelection::PageDown, None));
    assert_eq!(15, move_cursor(30, 25, MoveSelection::PageUp, None));
    assert_eq!(0, move_cursor(30, 5, MoveSelection::PageUp, None));
    assert_eq!(0, move_cursor(0, 0, MoveSelection::Down, None));
    assert_eq!(0, move_cursor(0, 0, MoveSelection::Bottom, None));
    let mut cur = 3;
    for _ in 0..25 {
        cur = move_cursor(7, cur, MoveSelection::Down, None);
        assert!(cur < 7);
    }
    assert_eq!(6, cur);
    let top = move_cursor(7, cur, MoveSelection::Top, None);
    assert_eq!(top, move_cursor(7, top, MoveSelection::Top, None));
    let bottom = move_cursor(7, 2, MoveSelection::Bottom, None);
    assert_eq!(bottom, move_cursor(7, bottom, MoveSelection::Bottom, None));
}

#[test]
fn search_moves_forward_only() {
    let mut state = state_with(&["alpha", "beta", "alphabet", "gamma", "alpine"]);
    assert!(update_state(&mut state, Event::TopicQuerySet(Some("alp".to_string()))).is_ok());
    assert_eq!(Some(2), state.find_next_index(false));
    assert!(update_state(&mut state, Event::SelectionUpdated(MoveSelection::SearchNext)).is_ok());
    assert_eq!(2, state.selected_index);
    assert!(update_state(&mut state, Event::SelectionUpdated(MoveSelection::SearchNext)).is_ok());
    assert_eq!(4, state.selected_index);
    assert!(update_state(&mut state, Event::SelectionUpdated(MoveSelection::SearchNext)).is_ok());
    assert_eq!(4, state.selected_index);
    assert_eq!(Some(2), state.find_next_index(true));
    assert!(update_state(&mut state, Event::TopicQuerySet(Some("zzz".to_string()))).is_ok());
    assert_eq!((CurrentView::Topics, 4), select(&state, MoveSelection::SearchNext));
}

#[test]
fn intents_become_events_or_operations() {
    assert!(matches!(to_event(Message::Quit), Translation::Apply(Event::Exiting)));
    assert!(matches!(to_event(Message::Noop), Translation::Apply(Event::StateIdentity)));
    match to_event(Message::SetTopicQuery(TopicQuery::Query("x".to_string()))) {
        Translation::Apply(Event::TopicQuerySet(Some(q))) => assert_eq!("x", q),
        _ => panic!("expected a query"),
    }
    assert!(matches!(to_event(Message::SetTopicQuery(TopicQuery::NoQuery)), Translation::Apply(Event::TopicQuerySet(None))));
    let address = BootstrapServer::of("h".to_string(), 1, false);
    assert!(matches!(to_event(Message::Delete(address, 5)), Translation::Perform(Operation::Delete(_, 5))));
}

#[test]
fn simple_events_fold() {
    let mut state = State::new();
    assert!(update_state(&mut state, Event::Exiting).is_err());
    assert!(update_state(&mut state, Event::UserInputUpdated(String::new())).is_ok());
    assert!(state.user_input.is_none());
    assert!(update_state(&mut state, Event::UserInputUpdated("abc".to_string())).is_ok());
    assert_eq!(Some("abc".to_string()), state.user_input);
    assert!(update_state(&mut state, Event::ShowUIMessage(DialogMessage::Warn("w".to_string()))).is_ok());
    assert!(matches!(state.dialog_message, Some(DialogMessage::Warn(_))));
    assert!(update_state(&mut state, Event::ShowUIMessage(DialogMessage::Empty)).is_ok());
    assert!(state.dialog_message.is_none());
    assert!(update_state(&mut state, Event::ViewToggled(CurrentView::HelpScreen)).is_ok());
    assert_eq!(CurrentView::HelpScreen, state.current_view);
    assert!(update_state(&mut state, Event::ResourceCreated("t1".to_string())).is_ok());
    match &state.dialog_message {
        Some(DialogMessage::Info(text)) => assert_eq!("Topic 't1' created. Press 'r' to refresh view.", text),
        _ => panic!("expected an info message"),
    }
}

#[test]
fn partitions_are_sorted_and_grouped_by_leader() {
    let state = state_with(&["t"]);
    let topic = state.selected_topic_metadata().unwrap();
    let sorted = sort_partitions(state.selected_topic_metadata().unwrap().partition_metadata);
    let ids: Vec<i32> = sorted.iter().map(|p| p.partition).collect();
    assert_eq!(vec![0, 1, 2], ids);

    let bootstrap = BootstrapServer::of("boot".to_string(), 9092, true);
    let calls = retrieve_partition_metadata_and_offsets(state.metadata.as_ref().unwrap(), &topic, &bootstrap);
    assert_eq!(2, calls.len());
    assert_eq!("b1", calls[0].0.domain);
    assert_eq!(9001, calls[0].0.port);
    assert!(calls[0].0.use_tls);
    let asked: Vec<i32> = calls[0].1.request_message.topics[0].partitions.iter().map(|p| p.partition).collect();
    assert_eq!(vec![1, 2], asked);
    assert_eq!(-1, calls[0].1.request_message.topics[0].partitions[0].timestamp);
    assert_eq!("boot", calls[1].0.domain);
    let asked: Vec<i32> = calls[1].1.request_message.topics[0].partitions.iter().map(|p| p.partition).collect();
    assert_eq!(vec![0], asked);
}

fn offsets(ids: &[i32]) -> listoffsets_response::ListOffsetsResponse {
    listoffsets_response::ListOffsetsResponse {
        throttle_time_ms: 0,
        responses: vec![listoffsets_response::Response {
            topic: "t".to_string(),
            partition_responses: ids
                .iter()
                .map(|i| listoffsets_response::PartitionResponse { partition: *i, error_code: 0, timestamp: -1, offset: 100 + *i as i64 })
                .collect(),
        }],
    }
}

#[test]
fn partition_offsets_are_collected_or_fail() {
    let answers = vec![Ok(respond(offsets(&[1, 2]))), Ok(respond(offsets(&[0])))];
    let collected = partition_offsets_from(&answers).ok().unwrap();
    let pairs: Vec<(i32, i64)> = collected.iter().map(|p| (p.partition, p.offset)).collect();
    assert_eq!(vec![(1, 101), (2, 102), (0, 100)], pairs);

    let failed = vec![Ok(respond(offsets(&[1]))), Err(ApiRequestError::from("down"))];
    assert!(partition_offsets_from(&failed).is_err());
    let empty = vec![Ok(respond(listoffsets_response::ListOffsetsResponse { throttle_time_ms: 0, responses: vec![] }))];
    assert!(partition_offsets_from(&empty).is_err());
}

#[test]
fn consumer_offsets_come_from_the_coordinator() {
    let state = state_with(&["t"]);
    let topic = state.selected_topic_metadata().unwrap();
    let group = ConsumerGroup("g".to_string(), Coordinator { node_id: 3, host: "coord".to_string(), port: 7000 });
    let (address, request) = offset_fetch_request(&group, &topic, false);
    assert_eq!(("coord".to_string(), 7000), (address.domain.clone(), address.port));
    assert_eq!("g", request.request_message.group_id);
    assert_eq!(vec![1, 0, 2], request.request_message.topics[0].partitions);
    assert_eq!(9, request.header.api_key);

    let answer = |code: i16, name: &str| {
        respond(offsetfetch_response::OffsetFetchResponse {
            throttle_time_ms: 0,
            responses: vec![offsetfetch_response::Response {
                topic: name.to_string(),
                partition_responses: vec![offsetfetch_response::PartitionResponse { partition: 0, offset: 12, metadata: None, error_code: 0 }],
            }],
            error_code: code,
        })
    };
    let found = retrieve_consumer_offsets(answer(0, "t"), &"t".to_string()).ok().unwrap();
    assert_eq!(12, found[0].offset);
    assert!(retrieve_consumer_offsets(answer(16, "t"), &"t".to_string()).is_err());
    assert!(retrieve_consumer_offsets(answer(0, "other"), &"t".to_string()).is_err());
}

#[test]
fn topic_configuration_is_picked_by_name() {
    let resource = |name: &str, code: i16| describeconfigs_response::Resource {
        error_code: code,
        error_message: Some("bad".to_string()),
        resource_type: 2,
        resource_name: name.to_string(),
        config_entries: vec![],
    };
    let answer = describeconfigs_response::DescribeConfigsResponse {
        throttle_time_ms: 0,
        resources: vec![resource("x", 0), resource("t", 0)],
    };
    let picked = retrieve_topic_metadata(respond(answer), &"t".to_string()).ok().unwrap();
    assert_eq!("t", picked.resource_name);
    let failing = describeconfigs_response::DescribeConfigsResponse { throttle_time_ms: 0, resources: vec![resource("t", 37)] };
    let err = retrieve_topic_metadata(respond(failing), &"t".to_string()).err().unwrap();
    assert_eq!("Error describing config. bad", err.error);
    let missing = describeconfigs_response::DescribeConfigsResponse { throttle_time_ms: 0, resources: vec![] };
    let err = retrieve_topic_metadata(respond(missing), &"t".to_string()).err().unwrap();
    assert_eq!("API response missing topic resource info", err.error);
}

#[test]
fn refresh_plan_follows_the_view() {
    let mut state = state_with(&["t"]);
    assert!(matches!(plan_fetch(&state), Ok(FetchPlan::Topics)));
    state.current_view = CurrentView::TopicInfo;
    match plan_fetch(&state) {
        Ok(FetchPlan::TopicInfo(name)) => assert_eq!("t", name),
        _ => panic!("expected a topic info refresh"),
    }
    state.current_view = CurrentView::Partitions;
    assert!(matches!(plan_fetch(&state), Ok(FetchPlan::Partitions(_))));
    state.selected_index = 9;
    assert!(plan_fetch(&state).is_err());
}

#[test]
fn topics_are_created_at_the_controller() {
    let state = state_with(&["t"]);
    let creation = Creation::Topic { name: "new".to_string(), partitions: 3, replication_factor: 2 };
    let address = BootstrapServer::of("boot".to_string(), 9092, false);
    let (broker, request, name) = plan_create(&state, &address, &creation, 500).ok().unwrap();
    assert_eq!("b1", broker.domain);
    assert_eq!("new", name);
    assert_eq!(19, request.header.api_key);
    let t = &request.request_message.create_topic_requests[0];
    assert_eq!((3, 2), (t.num_partitions, t.replication_factor));

    let answer = |code: i16| {
        respond(CreateTopicsResponse {
            topic_errors: vec![TopicError { topic: "new".to_string(), error_code: code, error_message: Some("exists".to_string()) }],
        })
    };
    assert_eq!("new", create_topic(Ok(answer(0)), "new".to_string()).ok().unwrap());
    match create_topic(Ok(answer(36)), "new".to_string()).err().unwrap() {
        topiks::state::StateFNError::Error(text) => assert_eq!("(36) exists", text),
        _ => panic!("expected the broker's code and message"),
    }

    let mut elsewhere = state_with(&["t"]);
    elsewhere.current_view = CurrentView::Partitions;
    assert!(plan_create(&elsewhere, &address, &creation, 500).is_err());
}

#[test]
fn coordinator_is_taken_only_without_error() {
    let request = find_coordinator_request(&"g".to_string());
    assert_eq!(("g".to_string(), 0, 10), (request.request_message.coordinator_key.clone(), request.request_message.coordinator_type, request.header.api_key));
    let answer = |code: i16| {
        respond(FindCoordinatorResponse {
            throttle_time_ms: 0,
            error_code: code,
            error_message: None,
            coordinator: Coordinator { node_id: 4, host: "c".to_string(), port: 1 },
        })
    };
    let group = consumer_group_from(answer(0), "g".to_string()).unwrap();
    assert_eq!(("g", "c"), (group.0.as_str(), group.1.host.as_str()));
    assert!(consumer_group_from(answer(15), "g".to_string()).is_none());
}

#[test]
fn search_without_match_keeps_the_cursor_on_an_empty_list() {
    assert_eq!(5, move_cursor(0, 5, MoveSelection::SearchNext, None));
    assert_eq!(0, move_cursor(0, 5, MoveSelection::Down, None));
    let mut state = state_with(&[]);
    state.selected_index = 5;
    assert!(update_state(&mut state, Event::TopicQuerySet(Some("a".to_string()))).is_ok());
    assert!(update_state(&mut state, Event::SelectionUpdated(MoveSelection::SearchNext)).is_ok());
    assert_eq!(5, state.selected_index);
}

#[test]
fn partition_refresh_combines_offsets() {
    let state = state_with(&["t"]);
    let topic = state.selected_topic_metadata().unwrap();
    let metadata = MetadataResponse { throttle_time_ms: 0, brokers: vec![], cluster_id: None, controller_id: 1, topic_metadata: vec![] };
    let answers = vec![Ok(respond(offsets(&[1, 2]))), Ok(respond(offsets(&[0])))];
    let committed = respond(offsetfetch_response::OffsetFetchResponse {
        throttle_time_ms: 0,
        responses: vec![offsetfetch_response::Response {
            topic: "t".to_string(),
            partition_responses: vec![offsetfetch_response::PartitionResponse { partition: 2, offset: 7, metadata: None, error_code: 0 }],
        }],
        error_code: 0,
    });
    match partitions_metadata(metadata, topic, &answers, Some(Ok(committed))) {
        Ok(MetadataPayload::PartitionsMetadata(_, pm, offs, cons)) => {
            let ids: Vec<i32> = pm.iter().map(|p| p.partition).collect();
            assert_eq!(vec![0, 1, 2], ids);
            assert_eq!(3, offs.len());
            assert_eq!(102, offs[&2].offset);
            assert_eq!(1, cons.len());
            assert_eq!(7, cons[&2].offset);
        }
        _ => panic!("expected partitions"),
    }
    let topic = state.selected_topic_metadata().unwrap();
    let metadata = MetadataResponse { throttle_time_ms: 0, brokers: vec![], cluster_id: None, controller_id: 1, topic_metadata: vec![] };
    assert!(partitions_metadata(metadata, topic, &answers, Some(Err(ApiRequestError::from("down")))).is_err());
}
