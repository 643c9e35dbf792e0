use crate::codec::ProtocolSerializable;
use crate::codec::array_wire;
use crate::codec::encode_i32;
use crate::codec::encode_i64;
use crate::codec::encode_i8;
use crate::codec::encode_string;
use crate::codec::i32_bytes;
use crate::codec::i64_bytes;
use crate::codec::i8_bytes;
use crate::codec::string_wire;
use crate::protocol_request::KafkaApiVersioned;
use vstd::prelude::*;

verus! {

/// ListOffsets, version 2.
#[derive(Debug)]
pub struct ListOffsetsRequest {
    pub replica_id: i32,
    pub isolation_level: i8,
    pub topics: Vec<Topic>,
}

#[derive(Debug)]
pub struct Topic {
    pub topic: String,
    pub partitions: Vec<Partition>,
}

#[derive(Debug)]
pub struct Partition {
    pub partition: i32,
    pub timestamp: i64,
}

impl KafkaApiVersioned for ListOffsetsRequest {
    open spec fn spec_api_key() -> i16 {
        2
    }

    open spec fn spec_version() -> i16 {
        2
    }

    fn api_key() -> (r: i16) {
        2
    }

    fn version() -> (r: i16) {
        2
    }
}

impl ProtocolSerializable for ListOffsetsRequest {
    open spec fn wire(&self) -> Seq<u8> {
        i32_bytes(self.replica_id) + i8_bytes(self.isolation_level) + array_wire(self.topics@)
    }

    fn into_protocol_bytes(&self) -> (r: Vec<u8>) {
        let mut r = encode_i32(self.replica_id);
        let mut i = encode_i8(self.isolation_level);
        r.append(&mut i);
        let mut t = self.topics.into_protocol_bytes();
        r.append(&mut t);
        r
    }
}

impl ProtocolSerializable for Topic {
    open spec fn wire(&self) -> Seq<u8> {
        string_wire(self.topic@) + array_wire(self.partitions@)
    }

    fn into_protocol_bytes(&self) -> (r: Vec<u8>) {
        let mut r = encode_string(&self.topic);
        let mut p = self.partitions.into_protocol_bytes();
        r.append(&mut p);
        r
    }
}

impl ProtocolSerializable for Partition {
    open spec fn wire(&self) -> Seq<u8> {
        i32_bytes(self.partition) + i64_bytes(self.timestamp)
    }

    fn into_protocol_bytes(&self) -> (r: Vec<u8>) {
        let mut r = encode_i32(self.partition);
        let mut t = encode_i64(self.timestamp);
        r.append(&mut t);
        r
    }
}

} // verus!
