use topiks::codec::ProtocolPrimitives::{Boolean, I16, I32, I8};
use topiks::codec::ProtocolSerializable;
use topiks::protocol_request::Request;
use topiks::protocol_request::RequestHeader;
use topiks::protocol_requests::metadata_request::MetadataRequest;

#[test]
fn verify_array_and_primitives() {
    assert_eq!(vec![0, 0, 0, 3, 1, 2, 3], vec![I8(1), I8(2), I8(3)].into_protocol_bytes());
    assert_eq!(
        vec![0, 0, 0, 3, 0, 1, 0, 2, 0, 3],
        vec![I16(1), I16(2), I16(3)].into_protocol_bytes()
    );
    assert_eq!(vec![0, 0, 0, 1, 0, 0, 0, 255], vec![I32(255)].into_protocol_bytes());
    assert_eq!(vec![0, 0, 0, 1, 0, 1, 0, 0], vec![I32(65536)].into_protocol_bytes());

    assert_eq!(vec![0, 0, 0, 1, 1], vec![Boolean(true)].into_protocol_bytes());
    assert_eq!(
        vec![0, 0, 0, 2, 0, 1],
        vec![Boolean(false), Boolean(true)].into_protocol_bytes()
    );

    // array of 2, string of 3, 3 characters, string of 3, 3 characters
    assert_eq!(
        vec![0, 0, 0, 2, 0, 3, 102, 111, 111, 0, 3, 98, 97, 114],
        vec![String::from("foo"), String::from("bar")].into_protocol_bytes()
    );
}

#[test]
fn verify_request() {
    let topics: Option<Vec<String>> = Some(vec![]);
    let metadata_request = MetadataRequest { topics, allow_auto_topic_creation: false };

    let request: Request<MetadataRequest> = Request {
        header: RequestHeader {
            api_key: 3,
            api_version: 5,
            correlation_id: 42,
            client_id: String::from("sean"),
        },
        request_message: metadata_request,
    };

    let bytes = request.into_protocol_bytes();
    assert_eq!(
        vec![0, 0, 0, 19, 0, 3, 0, 5, 0, 0, 0, 42, 0, 4, 115, 101, 97, 110, 0, 0, 0, 0, 0],
        bytes
    );
    println!("{:?}", bytes);
}

#[test]
fn verify_metadata_request() {
    let topics = Some(vec![String::from("my_kafka_topic_1"), String::from("my_kafka_topic_2")]);
    let metadata_request = MetadataRequest { topics, allow_auto_topic_creation: true };
    let expected: Vec<u8> = vec![
        0, 0, 0, 2, 0, 16, 0x6D, 0x79, 0x5F, 0x6B, 0x61, 0x66, 0x6B, 0x61, 0x5F, 0x74, 0x6F, 0x70,
        0x69, 0x63, 0x5F, 0x31, 0, 16, 0x6D, 0x79, 0x5F, 0x6B, 0x61, 0x66, 0x6B, 0x61, 0x5F, 0x74,
        0x6F, 0x70, 0x69, 0x63, 0x5F, 0x32, 1,
    ];
    assert_eq!(expected, metadata_request.into_protocol_bytes());
}
