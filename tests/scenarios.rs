use topiks::api_client::ApiRequestError;
use topiks::api_client::BootstrapServer;
use topiks::api_verification::apply;
use topiks::api_verification::verify_api_versions;
use topiks::api_verification::ApiVerificationFailure;
use topiks::api_verification::ApiVersionQuery;
use topiks::event_bus::update_state;
use topiks::event_bus::Deletion;
use topiks::event_bus::Event;
use topiks::event_bus::MetadataPayload;
use topiks::event_bus::Modification;
use topiks::event_bus::MoveSelection;
use topiks::operations::alter_config;
use topiks::operations::delete_topic;
use topiks::operations::plan_delete;
use topiks::operations::plan_modify;
use topiks::operations::retrieve_metadata;
use topiks::operations::DeletePlan;
use topiks::protocol_response::Response;
use topiks::protocol_response::ResponseHeader;
use topiks::protocol_responses::alterconfigs_response;
use topiks::protocol_responses::apiversions_response::ApiVersion;
use topiks::protocol_responses::apiversions_response::ApiVersionResponse;
use topiks::protocol_responses::deletetopics_response::DeleteTopicsResponse;
use topiks::protocol_responses::deletetopics_response::TopicErrorCode;
use topiks::protocol_responses::describeconfigs_response;
use topiks::protocol_responses::metadata_response::BrokerMetadata;
use topiks::protocol_responses::metadata_response::MetadataResponse;
use topiks::protocol_responses::metadata_response::TopicMetadata;
use topiks::state::CurrentView;
use topiks::state::State;
use topiks::state::StateFNError;
use topiks::state::TopicInfoState;

fn topic(name: &str, is_internal: bool) -> TopicMetadata {
    TopicMetadata { error_code: 0, topic: name.to_string(), is_internal, partition_metadata: vec![] }
}

fn snapshot(names: &[&str]) -> MetadataResponse {
    MetadataResponse {
        throttle_time_ms: 0,
        brokers: vec![
            BrokerMetadata { node_id: 1, host: "broker-1".to_string(), port: 9092, rack: None },
            BrokerMetadata { node_id: 2, host: "broker-2".to_string(), port: 9093, rack: None },
        ],
        cluster_id: Some("cluster".to_string()),
        controller_id: 2,
        topic_metadata: names.iter().map(|n| topic(n, false)).collect(),
    }
}

fn respond<T>(message: T) -> Response<T> {
    Response { header: ResponseHeader { correlation_id: 42 }, response_message: message }
}

fn bootstrap() -> BootstrapServer {
    BootstrapServer::of("localhost".to_string(), 9092, false)
}

#[test]
fn metadata_topics_are_sorted_and_selectable() {
    let metadata = retrieve_metadata(respond(snapshot(&["b", "a", "c"])));
    let names: Vec<&str> = metadata.topic_metadata.iter().map(|t| t.topic.as_str()).collect();
    assert_eq!(vec!["a", "b", "c"], names);

    let mut state = State::new();
    assert!(update_state(&mut state, Event::MetadataRetrieved(MetadataPayload::Metadata(metadata))).is_ok());
    assert_eq!(0, state.selected_index);
    assert!(update_state(&mut state, Event::SelectionUpdated(MoveSelection::Down)).is_ok());
    assert!(update_state(&mut state, Event::SelectionUpdated(MoveSelection::Down)).is_ok());
    assert_eq!(Some("c".to_string()), state.selected_topic_name());
}

#[test]
fn topics_sort_ignoring_case() {
    let metadata = retrieve_metadata(respond(snapshot(&["beta", "Alpha", "gamma", "Delta"])));
    let names: Vec<&str> = metadata.topic_metadata.iter().map(|t| t.topic.as_str()).collect();
    assert_eq!(vec!["Alpha", "beta", "Delta", "gamma"], names);
    assert_eq!(2, metadata.controller_id);
}

#[test]
fn delete_selected_topic_marks_it_deleted() {
    let mut state = State::new();
    state.metadata = Some(snapshot(&["a", "b"]));
    let plan = plan_delete(&state, &bootstrap(), 30000).ok().unwrap();
    let name = match plan {
        DeletePlan::Topic(address, request, name) => {
            assert_eq!("broker-2", address.domain);
            assert_eq!(9093, address.port);
            assert_eq!(vec!["a".to_string()], request.request_message.topics);
            assert_eq!(30000, request.request_message.timeout);
            assert_eq!(20, request.header.api_key);
            name
        }
        DeletePlan::Config(..) => panic!("expected a topic deletion"),
    };
    let answer = DeleteTopicsResponse {
        throttle_time_ms: 0,
        topic_error_codes: vec![TopicErrorCode { topic: "a".to_string(), error_code: 0 }],
    };
    let deletion = delete_topic(Ok(respond(answer)), name).ok().unwrap();
    assert!(update_state(&mut state, Event::ResourceDeleted(deletion)).is_ok());
    assert_eq!(vec!["a".to_string()], state.marked_deleted);
    assert_eq!(CurrentView::Topics, state.current_view);
}

#[test]
fn delete_fails_on_nonzero_code_or_internal_topic() {
    let answer = DeleteTopicsResponse {
        throttle_time_ms: 0,
        topic_error_codes: vec![TopicErrorCode { topic: "a".to_string(), error_code: 41 }],
    };
    assert!(delete_topic(Ok(respond(answer)), "a".to_string()).is_err());
    assert!(delete_topic(Err(ApiRequestError::from("refused")), "a".to_string()).is_err());

    let mut state = State::new();
    let mut metadata = snapshot(&[]);
    metadata.topic_metadata.push(topic("__consumer_offsets", true));
    state.metadata = Some(metadata);
    assert!(plan_delete(&state, &bootstrap(), 1).is_err());

    state.current_view = CurrentView::Partitions;
    assert!(plan_delete(&state, &bootstrap(), 1).is_err());
}

#[test]
fn unsupported_metadata_version_fails_verification() {
    let answer = ApiVersionResponse {
        error_code: 0,
        api_versions: vec![ApiVersion { api_key: 3, min_version: 0, max_version: 2 }],
    };
    let failures = verify_api_versions(&answer.api_versions, &vec![ApiVersionQuery(3, 5)]);
    assert_eq!(1, failures.len());
    assert!(matches!(failures[0], ApiVerificationFailure::ApiVersionNotSupported(3, 5)));

    match apply(Ok(respond(answer)), &vec![ApiVersionQuery(3, 5), ApiVersionQuery(20, 1)]) {
        Err(failures) => {
            assert_eq!(2, failures.len());
            assert!(matches!(failures[0], ApiVerificationFailure::ApiVersionNotSupported(3, 5)));
            assert!(matches!(failures[1], ApiVerificationFailure::ApiNotSupported(20)));
        }
        Ok(()) => panic!("expected failures"),
    }
}

#[test]
fn verification_passes_and_reports_transport_failure() {
    let answer = ApiVersionResponse {
        error_code: 0,
        api_versions: vec![ApiVersion { api_key: 3, min_version: 0, max_version: 7 }],
    };
    assert!(apply(Ok(respond(answer)), &vec![ApiVersionQuery(3, 5)]).is_ok());
    match apply(Err(ApiRequestError::from("connection refused")), &vec![ApiVersionQuery(3, 5)]) {
        Err(failures) => {
            assert_eq!(1, failures.len());
            match &failures[0] {
                ApiVerificationFailure::NoVerification(m) => assert_eq!("connection refused", m),
                _ => panic!("expected NoVerification"),
            }
        }
        Ok(()) => panic!("expected a failure"),
    }
}

fn config(name: &str, value: &str, source: i8) -> describeconfigs_response::ConfigEntry {
    describeconfigs_response::ConfigEntry {
        config_name: name.to_string(),
        config_value: Some(value.to_string()),
        read_only: false,
        config_source: source,
        is_sensitive: false,
        config_synonyms: vec![],
    }
}

fn topic_info_state() -> State {
    let mut state = State::new();
    state.metadata = Some(snapshot(&["orders"]));
    state.current_view = CurrentView::TopicInfo;
    let resource = describeconfigs_response::Resource {
        error_code: 0,
        error_message: None,
        resource_type: 2,
        resource_name: "orders".to_string(),
        config_entries: vec![
            config("cleanup.policy", "compact", 1),
            config("retention.ms", "1000", 1),
            config("segment.bytes", "1073741824", 5),
            config("max.message.bytes", "2000000", 1),
        ],
    };
    let mut info = TopicInfoState::new(topic("orders", false), resource);
    info.selected_index = 1;
    state.topic_info_state = Some(info);
    state
}

fn altered(error_code: i16) -> Response<alterconfigs_response::AlterConfigsResponse> {
    respond(alterconfigs_response::AlterConfigsResponse {
        throttle_time_ms: 0,
        resources: vec![alterconfigs_response::Resource {
            error_code,
            error_message: None,
            resource_type: 2,
            resource_name: "orders".to_string(),
        }],
    })
}

#[test]
fn modify_value_keeps_other_overrides() {
    let mut state = topic_info_state();
    let (address, request, name) =
        plan_modify(&state, &bootstrap(), Some("604800000".to_string())).ok().unwrap();
    assert_eq!("localhost", address.domain);
    assert_eq!("retention.ms", name);
    assert_eq!(33, request.header.api_key);
    let resource = &request.request_message.resources[0];
    assert_eq!("orders", resource.resource_name);
    assert_eq!(2, resource.resource_type);
    let entries: Vec<(String, Option<String>)> =
        resource.config_entries.iter().map(|e| (e.config_name.clone(), e.config_value.clone())).collect();
    assert_eq!(
        vec![
            ("cleanup.policy".to_string(), Some("compact".to_string())),
            ("max.message.bytes".to_string(), Some("2000000".to_string())),
            ("retention.ms".to_string(), Some("604800000".to_string())),
        ],
        entries
    );
    assert!(alter_config(Ok(altered(0))).is_ok());
    assert!(update_state(&mut state, Event::ValueModified(Modification::Config(name))).is_ok());
    let info = state.topic_info_state.as_ref().unwrap();
    assert_eq!(vec!["retention.ms".to_string()], info.configs_marked_modified);
    assert!(info.configs_marked_deleted.is_empty());
}

#[test]
fn delete_config_resets_the_selected_entry() {
    let mut state = topic_info_state();
    match plan_delete(&state, &bootstrap(), 1).ok().unwrap() {
        DeletePlan::Config(_, request, name) => {
            assert_eq!("retention.ms", name);
            let names: Vec<&str> = request.request_message.resources[0]
                .config_entries
                .iter()
                .map(|e| e.config_name.as_str())
                .collect();
            assert_eq!(vec!["cleanup.policy", "max.message.bytes"], names);
            assert!(update_state(&mut state, Event::ResourceDeleted(Deletion::Config(name))).is_ok());
        }
        DeletePlan::Topic(..) => panic!("expected a config deletion"),
    }
    let info = state.topic_info_state.as_ref().unwrap();
    assert_eq!(vec!["retention.ms".to_string()], info.configs_marked_deleted);
    match alter_config(Ok(altered(42))) {
        Err(StateFNError::Error(text)) => assert_eq!("AlterConfigs request failed with error code 42, ", text),
        _ => panic!("expected the error code"),
    }
    match alter_config(Err(ApiRequestError::from("timeout"))) {
        Err(StateFNError::Caused(text, cause)) => {
            assert_eq!("AlterConfigs request failed", text);
            assert_eq!("timeout", cause);
        }
        _ => panic!("expected the cause"),
    }
}

#[test]
fn modify_is_refused_outside_topic_info() {
    let mut state = topic_info_state();
    state.current_view = CurrentView::Topics;
    assert!(plan_modify(&state, &bootstrap(), None).is_err());
}
