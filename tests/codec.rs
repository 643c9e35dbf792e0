use topiks::codec::de_array;
use topiks::codec::de_bool;
use topiks::codec::de_i16;
use topiks::codec::de_i32;
use topiks::codec::de_i64;
use topiks::codec::de_i8;
use topiks::codec::de_string;
use topiks::codec::ProtocolPrimitives;
use topiks::codec::ProtocolSerializable;
use topiks::protocol_request::Request;
use topiks::protocol_requests::deletetopics_request::DeleteTopicsRequest;
use topiks::protocol_requests::describeconfigs_request;
use topiks::protocol_response::into_protocol_type;
use topiks::protocol_responses::deletetopics_response::DeleteTopicsResponse;
use topiks::protocol_responses::metadata_response::MetadataResponse;

#[test]
fn primitives_round_trip() {
    let b = ProtocolPrimitives::I8(-7).into_protocol_bytes();
    assert_eq!((-7i8, 1usize), de_i8(&b, 0).ok().unwrap());
    let b = ProtocolPrimitives::I16(-2).into_protocol_bytes();
    assert_eq!(vec![0xFF, 0xFE], b);
    assert_eq!((-2i16, 2usize), de_i16(&b, 0).ok().unwrap());
    let b = ProtocolPrimitives::I32(i32::MIN).into_protocol_bytes();
    assert_eq!((i32::MIN, 4usize), de_i32(&b, 0).ok().unwrap());
    let b = ProtocolPrimitives::I64(0x0102030405060708).into_protocol_bytes();
    assert_eq!(vec![1, 2, 3, 4, 5, 6, 7, 8], b);
    assert_eq!((0x0102030405060708i64, 8usize), de_i64(&b, 0).ok().unwrap());
    let b = ProtocolPrimitives::Boolean(true).into_protocol_bytes();
    assert_eq!((true, 1usize), de_bool(&b, 0).ok().unwrap());
    assert_eq!(ProtocolPrimitives::I32(-1), ProtocolPrimitives::null_bytes());
    assert_eq!(ProtocolPrimitives::I16(-1), ProtocolPrimitives::null_string());
}

#[test]
fn strings_round_trip() {
    for s in ["", "topic", "naïve ☃"] {
        let text = s.to_string();
        let b = text.into_protocol_bytes();
        let (decoded, end) = de_string(&b, 0).ok().unwrap();
        assert_eq!(Some(text), decoded);
        assert_eq!(b.len(), end);
    }
    let mut b = None::<String>.into_protocol_bytes();
    assert_eq!(vec![0xFF, 0xFF], b);
    b.append(&mut vec![40, 41, 42]);
    let (decoded, end) = de_string(&b, 0).ok().unwrap();
    assert_eq!(None, decoded);
    assert_eq!(vec![40, 41, 42], b[end..].to_vec());
}

#[test]
fn malformed_bytes_are_errors() {
    assert!(de_i32(&[0, 1, 2], 0).is_err());
    assert!(de_string(&[0, 5, 97], 0).is_err());
    assert!(de_string(&[0xFF, 0xFE], 0).is_err());
    assert!(de_string(&[0, 2, 0xC3, 0x28], 0).is_err());
    let err = de_i64(&[1], 0).err().unwrap();
    assert!(!err.error.is_empty());
}

#[test]
fn sequences_round_trip_in_order() {
    let v = vec!["a".to_string(), "".to_string(), "ccc".to_string()];
    let b = v.into_protocol_bytes();
    let (decoded, end): (Vec<String>, usize) = de_array(&b, 0).ok().unwrap();
    assert_eq!(v, decoded);
    assert_eq!(b.len(), end);
    let empty: Vec<i32> = vec![];
    assert_eq!(vec![0, 0, 0, 0], empty.into_protocol_bytes());
    let (none, _): (Vec<i32>, usize) = de_array(&[0xFF, 0xFF, 0xFF, 0xFF], 0).ok().unwrap();
    assert!(none.is_empty());
    let (few, _): (Vec<i32>, usize) = de_array(&[0, 0, 0, 2, 0, 0, 0, 9], 0).map(|x| x).unwrap_or((vec![], 0));
    assert!(few.is_empty());
    assert!(de_array::<i32>(&[0, 0, 0, 2, 0, 0, 0, 9], 0).is_err());
}

#[test]
fn request_length_prefix_counts_the_rest() {
    let request = Request::of(DeleteTopicsRequest { topics: vec!["a".to_string()], timeout: 7 });
    let b = request.into_protocol_bytes();
    let (len, _) = de_i32(&b, 0).ok().unwrap();
    assert_eq!(b.len() - 4, len as usize);
    assert_eq!(vec![0, 20, 0, 1, 0, 0, 0, 42, 0, 6], b[4..14].to_vec());

    let describe = Request::of(describeconfigs_request::DescribeConfigsRequest {
        resources: vec![describeconfigs_request::Resource {
            resource_type: 2,
            resource_name: "t".to_string(),
            config_names: None,
        }],
        include_synonyms: false,
    });
    let b = describe.into_protocol_bytes();
    let (len, _) = de_i32(&b, 0).ok().unwrap();
    assert_eq!(b.len() - 4, len as usize);
    assert_eq!(vec![0, 0, 0, 1, 2, 0, 1, 116, 255, 255, 255, 255, 0], b[20..].to_vec());
}

#[test]
fn responses_decode_and_reject_leftovers() {
    let bytes = vec![0, 0, 0, 42, 0, 0, 0, 5, 0, 0, 0, 1, 0, 1, 97, 0, 3];
    let response = into_protocol_type::<DeleteTopicsResponse>(&bytes).ok().unwrap();
    assert_eq!(42, response.header.correlation_id);
    assert_eq!(5, response.response_message.throttle_time_ms);
    assert_eq!("a", response.response_message.topic_error_codes[0].topic);
    assert_eq!(3, response.response_message.topic_error_codes[0].error_code);

    let mut longer = bytes.clone();
    longer.push(0);
    assert!(into_protocol_type::<DeleteTopicsResponse>(&longer).is_err());
    assert!(into_protocol_type::<DeleteTopicsResponse>(&bytes[..10]).is_err());
}

#[test]
fn metadata_response_decodes() {
    let mut b: Vec<u8> = vec![0, 0, 0, 1, 0, 0, 0, 0];
    b.extend_from_slice(&[0, 0, 0, 1, 0, 0, 0, 7, 0, 1, b'h', 0, 0, 0x23, 0x84, 0xFF, 0xFF]);
    b.extend_from_slice(&[0xFF, 0xFF]);
    b.extend_from_slice(&[0, 0, 0, 7]);
    b.extend_from_slice(&[0, 0, 0, 1, 0, 0, 0, 1, b't', 1]);
    b.extend_from_slice(&[0, 0, 0, 1, 0, 0, 0, 0, 0, 3, 0, 0, 0, 7]);
    b.extend_from_slice(&[0, 0, 0, 1, 0, 0, 0, 7, 0, 0, 0, 1, 0, 0, 0, 7, 0, 0, 0, 0]);
    let response = into_protocol_type::<MetadataResponse>(&b).ok().unwrap();
    let m = response.response_message;
    assert_eq!(1, response.header.correlation_id);
    assert_eq!(7, m.controller_id);
    assert_eq!(None, m.cluster_id);
    assert_eq!("h", m.brokers[0].host);
    assert_eq!(9092, m.brokers[0].port);
    assert_eq!(None, m.brokers[0].rack);
    assert_eq!("t", m.topic_metadata[0].topic);
    assert!(m.topic_metadata[0].is_internal);
    let p = &m.topic_metadata[0].partition_metadata[0];
    assert_eq!((3, 7), (p.partition, p.leader));
    assert_eq!(vec![7], p.replicas);
    assert_eq!(vec![7], p.isr);
    assert!(p.offline_replicas.is_empty());
}
