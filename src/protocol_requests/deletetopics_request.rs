use crate::codec::ProtocolSerializable;
use crate::codec::array_wire;
use crate::codec::encode_i32;
use crate::codec::i32_bytes;
use crate::protocol_request::KafkaApiVersioned;
use vstd::prelude::*;

verus! {

/// DeleteTopics, version 1.
#[derive(Debug)]
pub struct DeleteTopicsRequest {
    pub topics: Vec<String>,
    pub timeout: i32,
}

impl KafkaApiVersioned for DeleteTopicsRequest {
    open spec fn spec_api_key() -> i16 {
        20
    }

    open spec fn spec_version() -> i16 {
        1
    }

    fn api_key() -> (r: i16) {
        20
    }

    fn version() -> (r: i16) {
        1
    }
}

impl ProtocolSerializable for DeleteTopicsRequest {
    open spec fn wire(&self) -> Seq<u8> {
        array_wire(self.topics@) + i32_bytes(self.timeout)
    }

    fn into_protocol_bytes(&self) -> (r: Vec<u8>) {
        let mut r = self.topics.into_protocol_bytes();
        let mut t = encode_i32(self.timeout);
        r.append(&mut t);
        r
    }
}

} // verus!
