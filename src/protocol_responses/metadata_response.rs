//! Metadata response, version 5.
use crate::codec::DeserializeError;
use crate::codec::Duplicate;
use crate::codec::ProtocolDeserializable;
use crate::codec::from_pos;
use crate::codec::read_as;
use vstd::prelude::*;

verus! {

/// Metadata, version 5: the brokers, the controller and the topics.
#[derive(Debug)]
pub struct MetadataResponse {
    pub throttle_time_ms: i32,
    pub brokers: Vec<BrokerMetadata>,
    pub cluster_id: Option<String>,
    pub controller_id: i32,
    pub topic_metadata: Vec<TopicMetadata>,
}

/// What `MetadataResponse` holds, as plain values.
pub struct MetadataResponseModel {
    pub throttle_time_ms: i32,
    pub brokers: Seq<BrokerMetadataModel>,
    pub cluster_id: Option<Seq<char>>,
    pub controller_id: i32,
    pub topic_metadata: Seq<TopicMetadataModel>,
}

impl DeepView for MetadataResponse {
    type V = MetadataResponseModel;

    open spec fn deep_view(&self) -> MetadataResponseModel {
        MetadataResponseModel {
            throttle_time_ms: self.throttle_time_ms.deep_view(),
            brokers: self.brokers.deep_view(),
            cluster_id: self.cluster_id.deep_view(),
            controller_id: self.controller_id.deep_view(),
            topic_metadata: self.topic_metadata.deep_view(),
        }
    }
}

pub open spec fn parse_metadata_response(b0: Seq<u8>) -> Option<(MetadataResponseModel, Seq<u8>)> {
    match <i32 as ProtocolDeserializable>::parse(b0) {
        None => None,
        Some((throttle_time_ms, b1)) => {
            match <Vec<BrokerMetadata> as ProtocolDeserializable>::parse(b1) {
                None => None,
                Some((brokers, b2)) => {
                    match <Option<String> as ProtocolDeserializable>::parse(b2) {
                        None => None,
                        Some((cluster_id, b3)) => {
                            match <i32 as ProtocolDeserializable>::parse(b3) {
                                None => None,
                                Some((controller_id, b4)) => {
                                    match <Vec<TopicMetadata> as ProtocolDeserializable>::parse(b4) {
                                        None => None,
                                        Some((topic_metadata, b5)) => {
                                            Some((MetadataResponseModel { throttle_time_ms, brokers, cluster_id, controller_id, topic_metadata }, b5))
                                        },
                                    }
                                },
                            }
                        },
                    }
                },
            }
        },
    }
}

pub fn deserialize_metadata_response(b: &[u8], pos: usize) -> (r: Result<(MetadataResponse, usize), DeserializeError>)
    requires
        pos <= b@.len(),
    ensures
        read_as(r, b@, pos as int, parse_metadata_response(from_pos(b@, pos as int)), |v: MetadataResponse| v.deep_view()),
{
    let r1 = <i32 as ProtocolDeserializable>::read_from(b, pos);
    let (throttle_time_ms, p1) = match r1 {
        Ok(x) => x,
        Err(e) => return Err(e),
    };
    let r2 = <Vec<BrokerMetadata> as ProtocolDeserializable>::read_from(b, p1);
    let (brokers, p2) = match r2 {
        Ok(x) => x,
        Err(e) => return Err(e),
    };
    let r3 = <Option<String> as ProtocolDeserializable>::read_from(b, p2);
    let (cluster_id, p3) = match r3 {
        Ok(x) => x,
        Err(e) => return Err(e),
    };
    let r4 = <i32 as ProtocolDeserializable>::read_from(b, p3);
    let (controller_id, p4) = match r4 {
        Ok(x) => x,
        Err(e) => return Err(e),
    };
    let r5 = <Vec<TopicMetadata> as ProtocolDeserializable>::read_from(b, p4);
    let (topic_metadata, p5) = match r5 {
        Ok(x) => x,
        Err(e) => return Err(e),
    };
    Ok((MetadataResponse { throttle_time_ms, brokers, cluster_id, controller_id, topic_metadata }, p5))
}

impl ProtocolDeserializable for MetadataResponse {
    open spec fn parse(b: Seq<u8>) -> Option<(MetadataResponseModel, Seq<u8>)> {
        parse_metadata_response(b)
    }

    fn read_from(b: &[u8], pos: usize) -> (r: Result<(MetadataResponse, usize), DeserializeError>) {
        deserialize_metadata_response(b, pos)
    }
}

impl Duplicate for MetadataResponse {
    fn duplicate(&self) -> (r: MetadataResponse) {
        MetadataResponse {
            throttle_time_ms: self.throttle_time_ms.duplicate(),
            brokers: self.brokers.duplicate(),
            cluster_id: self.cluster_id.duplicate(),
            controller_id: self.controller_id.duplicate(),
            topic_metadata: self.topic_metadata.duplicate(),
        }
    }
}

/// One broker.
#[derive(Debug)]
pub struct BrokerMetadata {
    pub node_id: i32,
    pub host: String,
    pub port: i32,
    pub rack: Option<String>,
}

/// What `BrokerMetadata` holds, as plain values.
pub struct BrokerMetadataModel {
    pub node_id: i32,
    pub host: Seq<char>,
    pub port: i32,
    pub rack: Option<Seq<char>>,
}

impl DeepView for BrokerMetadata {
    type V = BrokerMetadataModel;

    open spec fn deep_view(&self) -> BrokerMetadataModel {
        BrokerMetadataModel {
            node_id: self.node_id.deep_view(),
            host: self.host.deep_view(),
            port: self.port.deep_view(),
            rack: self.rack.deep_view(),
        }
    }
}

pub open spec fn parse_broker_metadata(b0: Seq<u8>) -> Option<(BrokerMetadataModel, Seq<u8>)> {
    match <i32 as ProtocolDeserializable>::parse(b0) {
        None => None,
        Some((node_id, b1)) => {
            match <String as ProtocolDeserializable>::parse(b1) {
                None => None,
                Some((host, b2)) => {
                    match <i32 as ProtocolDeserializable>::parse(b2) {
                        None => None,
                        Some((port, b3)) => {
                            match <Option<String> as ProtocolDeserializable>::parse(b3) {
                                None => None,
                                Some((rack, b4)) => {
                                    Some((BrokerMetadataModel { node_id, host, port, rack }, b4))
                                },
                            }
                        },
                    }
                },
            }
        },
    }
}

pub fn deserialize_broker_metadata(b: &[u8], pos: usize) -> (r: Result<(BrokerMetadata, usize), DeserializeError>)
    requires
        pos <= b@.len(),
    ensures
        read_as(r, b@, pos as int, parse_broker_metadata(from_pos(b@, pos as int)), |v: BrokerMetadata| v.deep_view()),
{
    let r1 = <i32 as ProtocolDeserializable>::read_from(b, pos);
    let (node_id, p1) = match r1 {
        Ok(x) => x,
        Err(e) => return Err(e),
    };
    let r2 = <String as ProtocolDeserializable>::read_from(b, p1);
    let (host, p2) = match r2 {
        Ok(x) => x,
        Err(e) => return Err(e),
    };
    let r3 = <i32 as ProtocolDeserializable>::read_from(b, p2);
    let (port, p3) = match r3 {
        Ok(x) => x,
        Err(e) => return Err(e),
    };
    let r4 = <Option<String> as ProtocolDeserializable>::read_from(b, p3);
    let (rack, p4) = match r4 {
        Ok(x) => x,
        Err(e) => return Err(e),
    };
    Ok((BrokerMetadata { node_id, host, port, rack }, p4))
}

impl ProtocolDeserializable for BrokerMetadata {
    open spec fn parse(b: Seq<u8>) -> Option<(BrokerMetadataModel, Seq<u8>)> {
        parse_broker_metadata(b)
    }

    fn read_from(b: &[u8], pos: usize) -> (r: Result<(BrokerMetadata, usize), DeserializeError>) {
        deserialize_broker_metadata(b, pos)
    }
}

impl Duplicate for BrokerMetadata {
    fn duplicate(&self) -> (r: BrokerMetadata) {
        BrokerMetadata {
            node_id: self.node_id.duplicate(),
            host: self.host.duplicate(),
            port: self.port.duplicate(),
            rack: self.rack.duplicate(),
        }
    }
}

/// One topic.
#[derive(Debug)]
pub struct TopicMetadata {
    pub error_code: i16,
    pub topic: String,
    pub is_internal: bool,
    pub partition_metadata: Vec<PartitionMetadata>,
}

/// What `TopicMetadata` holds, as plain values.
pub struct TopicMetadataModel {
    pub error_code: i16,
    pub topic: Seq<char>,
    pub is_internal: bool,
    pub partition_metadata: Seq<PartitionMetadataModel>,
}

impl DeepView for TopicMetadata {
    type V = TopicMetadataModel;

    open spec fn deep_view(&self) -> TopicMetadataModel {
        TopicMetadataModel {
            error_code: self.error_code.deep_view(),
            topic: self.topic.deep_view(),
            is_internal: self.is_internal.deep_view(),
            partition_metadata: self.partition_metadata.deep_view(),
        }
    }
}

pub open spec fn parse_topic_metadata(b0: Seq<u8>) -> Option<(TopicMetadataModel, Seq<u8>)> {
    match <i16 as ProtocolDeserializable>::parse(b0) {
        None => None,
        Some((error_code, b1)) => {
            match <String as ProtocolDeserializable>::parse(b1) {
                None => None,
                Some((topic, b2)) => {
                    match <bool as ProtocolDeserializable>::parse(b2) {
                        None => None,
                        Some((is_internal, b3)) => {
                            match <Vec<PartitionMetadata> as ProtocolDeserializable>::parse(b3) {
                                None => None,
                                Some((partition_metadata, b4)) => {
                                    Some((TopicMetadataModel { error_code, topic, is_internal, partition_metadata }, b4))
                                },
                            }
                        },
                    }
                },
            }
        },
    }
}

pub fn deserialize_topic_metadata(b: &[u8], pos: usize) -> (r: Result<(TopicMetadata, usize), DeserializeError>)
    requires
        pos <= b@.len(),
    ensures
        read_as(r, b@, pos as int, parse_topic_metadata(from_pos(b@, pos as int)), |v: TopicMetadata| v.deep_view()),
{
    let r1 = <i16 as ProtocolDeserializable>::read_from(b, pos);
    let (error_code, p1) = match r1 {
        Ok(x) => x,
        Err(e) => return Err(e),
    };
    let r2 = <String as ProtocolDeserializable>::read_from(b, p1);
    let (topic, p2) = match r2 {
        Ok(x) => x,
        Err(e) => return Err(e),
    };
    let r3 = <bool as ProtocolDeserializable>::read_from(b, p2);
    let (is_internal, p3) = match r3 {
        Ok(x) => x,
        Err(e) => return Err(e),
    };
    let r4 = <Vec<PartitionMetadata> as ProtocolDeserializable>::read_from(b, p3);
    let (partition_metadata, p4) = match r4 {
        Ok(x) => x,
        Err(e) => return Err(e),
    };
    Ok((TopicMetadata { error_code, topic, is_internal, partition_metadata }, p4))
}

impl ProtocolDeserializable for TopicMetadata {
    open spec fn parse(b: Seq<u8>) -> Option<(TopicMetadataModel, Seq<u8>)> {
        parse_topic_metadata(b)
    }

    fn read_from(b: &[u8], pos: usize) -> (r: Result<(TopicMetadata, usize), DeserializeError>) {
        deserialize_topic_metadata(b, pos)
    }
}

impl Duplicate for TopicMetadata {
    fn duplicate(&self) -> (r: TopicMetadata) {
        TopicMetadata {
            error_code: self.error_code.duplicate(),
            topic: self.topic.duplicate(),
            is_internal: self.is_internal.duplicate(),
            partition_metadata: self.partition_metadata.duplicate(),
        }
    }
}

/// One partition and its replicas.
#[derive(Debug)]
pub struct PartitionMetadata {
    pub error_code: i16,
    pub partition: i32,
    pub leader: i32,
    pub replicas: Vec<i32>,
    pub isr: Vec<i32>,
    pub offline_replicas: Vec<i32>,
}

/// What `PartitionMetadata` holds, as plain values.
pub struct PartitionMetadataModel {
    pub error_code: i16,
    pub partition: i32,
    pub leader: i32,
    pub replicas: Seq<i32>,
    pub isr: Seq<i32>,
    pub offline_replicas: Seq<i32>,
}

impl DeepView for PartitionMetadata {
    type V = PartitionMetadataModel;

    open spec fn deep_view(&self) -> PartitionMetadataModel {
        PartitionMetadataModel {
            error_code: self.error_code.deep_view(),
            partition: self.partition.deep_view(),
            leader: self.leader.deep_view(),
            replicas: self.replicas.deep_view(),
            isr: self.isr.deep_view(),
            offline_replicas: self.offline_replicas.deep_view(),
        }
    }
}

pub open spec fn parse_partition_metadata(b0: Seq<u8>) -> Option<(PartitionMetadataModel, Seq<u8>)> {
    match <i16 as ProtocolDeserializable>::parse(b0) {
        None => None,
        Some((error_code, b1)) => {
            match <i32 as ProtocolDeserializable>::parse(b1) {
                None => None,
                Some((partition, b2)) => {
                    match <i32 as ProtocolDeserializable>::parse(b2) {
                        None => None,
                        Some((leader, b3)) => {
                            match <Vec<i32> as ProtocolDeserializable>::parse(b3) {
                                None => None,
                                Some((replicas, b4)) => {
                                    match <Vec<i32> as ProtocolDeserializable>::parse(b4) {
                                        None => None,
                                        Some((isr, b5)) => {
                                            match <Vec<i32> as ProtocolDeserializable>::parse(b5) {
                                                None => None,
                                                Some((offline_replicas, b6)) => {
                                                    Some((PartitionMetadataModel { error_code, partition, leader, replicas, isr, offline_replicas }, b6))
                                                },
                                            }
                                        },
                                    }
                                },
                            }
                        },
                    }
                },
            }
        },
    }
}

pub fn deserialize_partition_metadata(b: &[u8], pos: usize) -> (r: Result<(PartitionMetadata, usize), DeserializeError>)
    requires
        pos <= b@.len(),
    ensures
        read_as(r, b@, pos as int, parse_partition_metadata(from_pos(b@, pos as int)), |v: PartitionMetadata| v.deep_view()),
{
    let r1 = <i16 as ProtocolDeserializable>::read_from(b, pos);
    let (error_code, p1) = match r1 {
        Ok(x) => x,
        Err(e) => return Err(e),
    };
    let r2 = <i32 as ProtocolDeserializable>::read_from(b, p1);
    let (partition, p2) = match r2 {
        Ok(x) => x,
        Err(e) => return Err(e),
    };
    let r3 = <i32 as ProtocolDeserializable>::read_from(b, p2);
    let (leader, p3) = match r3 {
        Ok(x) => x,
        Err(e) => return Err(e),
    };
    let r4 = <Vec<i32> as ProtocolDeserializable>::read_from(b, p3);
    let (replicas, p4) = match r4 {
        Ok(x) => x,
        Err(e) => return Err(e),
    };
    let r5 = <Vec<i32> as ProtocolDeserializable>::read_from(b, p4);
    let (isr, p5) = match r5 {
        Ok(x) => x,
        Err(e) => return Err(e),
    };
    let r6 = <Vec<i32> as ProtocolDeserializable>::read_from(b, p5);
    let (offline_replicas, p6) = match r6 {
        Ok(x) => x,
        Err(e) => return Err(e),
    };
    Ok((PartitionMetadata { error_code, partition, leader, replicas, isr, offline_replicas }, p6))
}

impl ProtocolDeserializable for PartitionMetadata {
    open spec fn parse(b: Seq<u8>) -> Option<(PartitionMetadataModel, Seq<u8>)> {
        parse_partition_metadata(b)
    }

    fn read_from(b: &[u8], pos: usize) -> (r: Result<(PartitionMetadata, usize), DeserializeError>) {
        deserialize_partition_metadata(b, pos)
    }
}

impl Duplicate for PartitionMetadata {
    fn duplicate(&self) -> (r: PartitionMetadata) {
        PartitionMetadata {
            error_code: self.error_code.duplicate(),
            partition: self.partition.duplicate(),
            leader: self.leader.duplicate(),
            replicas: self.replicas.duplicate(),
            isr: self.isr.duplicate(),
            offline_replicas: self.offline_replicas.duplicate(),
        }
    }
}

} // verus!
