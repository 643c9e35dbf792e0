use crate::codec::ProtocolSerializable;
use crate::codec::array_wire;
use crate::codec::bool_bytes;
use crate::codec::encode_bool;
use crate::codec::encode_i16;
use crate::codec::encode_i32;
use crate::codec::encode_nullable_string;
use crate::codec::encode_string;
use crate::codec::i16_bytes;
use crate::codec::i32_bytes;
use crate::codec::nullable_string_wire;
use crate::codec::option_string_model;
use crate::codec::string_wire;
use crate::protocol_request::KafkaApiVersioned;
use vstd::prelude::*;

verus! {

/// CreateTopics, version 1.
#[derive(Debug)]
pub struct CreateTopicsRequest {
    pub create_topic_requests: Vec<TopicRequest>,
    pub timeout: i32,
    pub validate_only: bool,
}

/// One topic to create.
#[derive(Debug)]
pub struct TopicRequest {
    pub topic: String,
    pub num_partitions: i32,
    pub replication_factor: i16,
    pub replica_assignments: Vec<ReplicaAssignment>,
    pub config_entries: Vec<ConfigEntry>,
}

/// The replicas chosen for one partition.
#[derive(Debug)]
pub struct ReplicaAssignment {
    pub partition: i32,
    pub replicas: Vec<i32>,
}

#[derive(Debug)]
pub struct ConfigEntry {
    pub config_name: String,
    pub config_value: Option<String>,
}

impl KafkaApiVersioned for CreateTopicsRequest {
    open spec fn spec_api_key() -> i16 {
        19
    }

    open spec fn spec_version() -> i16 {
        1
    }

    fn api_key() -> (r: i16) {
        19
    }

    fn version() -> (r: i16) {
        1
    }
}

impl ProtocolSerializable for CreateTopicsRequest {
    open spec fn wire(&self) -> Seq<u8> {
        array_wire(self.create_topic_requests@) + i32_bytes(self.timeout) + bool_bytes(
            self.validate_only,
        )
    }

    fn into_protocol_bytes(&self) -> (r: Vec<u8>) {
        let mut r = self.create_topic_requests.into_protocol_bytes();
        let mut t = encode_i32(self.timeout);
        r.append(&mut t);
        let mut v = encode_bool(self.validate_only);
        r.append(&mut v);
        r
    }
}

impl ProtocolSerializable for TopicRequest {
    open spec fn wire(&self) -> Seq<u8> {
        string_wire(self.topic@) + i32_bytes(self.num_partitions) + i16_bytes(self.replication_factor)
            + array_wire(self.replica_assignments@) + array_wire(self.config_entries@)
    }

    fn into_protocol_bytes(&self) -> (r: Vec<u8>) {
        let mut r = encode_string(&self.topic);
        let mut p = encode_i32(self.num_partitions);
        r.append(&mut p);
        let mut f = encode_i16(self.replication_factor);
        r.append(&mut f);
        let mut a = self.replica_assignments.into_protocol_bytes();
        r.append(&mut a);
        let mut c = self.config_entries.into_protocol_bytes();
        r.append(&mut c);
        r
    }
}

impl ProtocolSerializable for ReplicaAssignment {
    open spec fn wire(&self) -> Seq<u8> {
        i32_bytes(self.partition) + array_wire(self.replicas@)
    }

    fn into_protocol_bytes(&self) -> (r: Vec<u8>) {
        let mut r = encode_i32(self.partition);
        let mut p = self.replicas.into_protocol_bytes();
        r.append(&mut p);
        r
    }
}

impl ProtocolSerializable for ConfigEntry {
    open spec fn wire(&self) -> Seq<u8> {
        string_wire(self.config_name@) + nullable_string_wire(option_string_model(self.config_value))
    }

    fn into_protocol_bytes(&self) -> (r: Vec<u8>) {
        let mut r = encode_string(&self.config_name);
        let mut v = encode_nullable_string(&self.config_value);
        r.append(&mut v);
        r
    }
}

} // verus!
