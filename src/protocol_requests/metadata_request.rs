use crate::codec::ProtocolSerializable;
use crate::codec::array_wire;
use crate::codec::bool_bytes;
use crate::codec::encode_bool;
use crate::codec::encode_i32;
use crate::codec::i32_bytes;
use crate::protocol_request::KafkaApiVersioned;
use vstd::prelude::*;

verus! {

/// Metadata, version 5. `topics` is `None` to ask for every topic, and a list
/// (possibly empty) to ask for just those.
#[derive(Debug)]
pub struct MetadataRequest {
    pub topics: Option<Vec<String>>,
    pub allow_auto_topic_creation: bool,
}

impl KafkaApiVersioned for MetadataRequest {
    open spec fn spec_api_key() -> i16 {
        3
    }

    open spec fn spec_version() -> i16 {
        5
    }

    fn api_key() -> (r: i16) {
        3
    }

    fn version() -> (r: i16) {
        5
    }
}

impl ProtocolSerializable for MetadataRequest {
    open spec fn wire(&self) -> Seq<u8> {
        (match self.topics {
            Some(t) => array_wire(t@),
            None => i32_bytes(-1i32),
        }) + bool_bytes(self.allow_auto_topic_creation)
    }

    fn into_protocol_bytes(&self) -> (r: Vec<u8>) {
        let mut r = match &self.topics {
            Some(t) => t.into_protocol_bytes(),
            None => encode_i32(-1),
        };
        let mut a = encode_bool(self.allow_auto_topic_creation);
        r.append(&mut a);
        r
    }
}

} // verus!
