use crate::codec::ProtocolSerializable;
use crate::codec::array_wire;
use crate::codec::encode_string;
use crate::codec::string_wire;
use crate::protocol_request::KafkaApiVersioned;
use vstd::prelude::*;

verus! {

/// OffsetFetch, version 3.
#[derive(Debug)]
pub struct OffsetFetchRequest {
    pub group_id: String,
    pub topics: Vec<Topic>,
}

#[derive(Debug)]
pub struct Topic {
    pub topic: String,
    pub partitions: Vec<i32>,
}

impl KafkaApiVersioned for OffsetFetchRequest {
    open spec fn spec_api_key() -> i16 {
        9
    }

    open spec fn spec_version() -> i16 {
        3
    }

    fn api_key() -> (r: i16) {
        9
    }

    fn version() -> (r: i16) {
        3
    }
}

impl ProtocolSerializable for OffsetFetchRequest {
    open spec fn wire(&self) -> Seq<u8> {
        string_wire(self.group_id@) + array_wire(self.topics@)
    }

    fn into_protocol_bytes(&self) -> (r: Vec<u8>) {
        let mut r = encode_string(&self.group_id);
        let mut t = self.topics.into_protocol_bytes();
        r.append(&mut t);
        r
    }
}

impl ProtocolSerializable for Topic {
    open spec fn wire(&self) -> Seq<u8> {
        string_wire(self.topic@) + array_wire(self.partitions@)
    }

    fn into_protocol_bytes(&self) -> (r: Vec<u8>) {
        let mut r = encode_string(&self.topic);
        let mut p = self.partitions.into_protocol_bytes();
        r.append(&mut p);
        r
    }
}

} // verus!
