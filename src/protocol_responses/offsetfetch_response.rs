//! OffsetFetch response, version 3.
use crate::codec::DeserializeError;
use crate::codec::Duplicate;
use crate::codec::ProtocolDeserializable;
use crate::codec::from_pos;
use crate::codec::read_as;
use vstd::prelude::*;

verus! {

/// OffsetFetch, version 3.
#[derive(Debug)]
pub struct OffsetFetchResponse {
    pub throttle_time_ms: i32,
    pub responses: Vec<Response>,
    pub error_code: i16,
}

/// What `OffsetFetchResponse` holds, as plain values.
pub struct OffsetFetchResponseModel {
    pub throttle_time_ms: i32,
    pub responses: Seq<ResponseModel>,
    pub error_code: i16,
}

impl DeepView for OffsetFetchResponse {
    type V = OffsetFetchResponseModel;

    open spec fn deep_view(&self) -> OffsetFetchResponseModel {
        OffsetFetchResponseModel {
            throttle_time_ms: self.throttle_time_ms.deep_view(),
            responses: self.responses.deep_view(),
            error_code: self.error_code.deep_view(),
        }
    }
}

pub open spec fn parse_offsetfetch_response(b0: Seq<u8>) -> Option<(OffsetFetchResponseModel, Seq<u8>)> {
    match <i32 as ProtocolDeserializable>::parse(b0) {
        None => None,
        Some((throttle_time_ms, b1)) => {
            match <Vec<Response> as ProtocolDeserializable>::parse(b1) {
                None => None,
                Some((responses, b2)) => {
                    match <i16 as ProtocolDeserializable>::parse(b2) {
                        None => None,
                        Some((error_code, b3)) => {
                            Some((OffsetFetchResponseModel { throttle_time_ms, responses, error_code }, b3))
                        },
                    }
                },
            }
        },
    }
}

pub fn deserialize_offsetfetch_response(b: &[u8], pos: usize) -> (r: Result<(OffsetFetchResponse, usize), DeserializeError>)
    requires
        pos <= b@.len(),
    ensures
        read_as(r, b@, pos as int, parse_offsetfetch_response(from_pos(b@, pos as int)), |v: OffsetFetchResponse| v.deep_view()),
{
    let r1 = <i32 as ProtocolDeserializable>::read_from(b, pos);
    let (throttle_time_ms, p1) = match r1 {
        Ok(x) => x,
        Err(e) => return Err(e),
    };
    let r2 = <Vec<Response> as ProtocolDeserializable>::read_from(b, p1);
    let (responses, p2) = match r2 {
        Ok(x) => x,
        Err(e) => return Err(e),
    };
    let r3 = <i16 as ProtocolDeserializable>::read_from(b, p2);
    let (error_code, p3) = match r3 {
        Ok(x) => x,
        Err(e) => return Err(e),
    };
    Ok((OffsetFetchResponse { throttle_time_ms, responses, error_code }, p3))
}

impl ProtocolDeserializable for OffsetFetchResponse {
    open spec fn parse(b: Seq<u8>) -> Option<(OffsetFetchResponseModel, Seq<u8>)> {
        parse_offsetfetch_response(b)
    }

    fn read_from(b: &[u8], pos: usize) -> (r: Result<(OffsetFetchResponse, usize), DeserializeError>) {
        deserialize_offsetfetch_response(b, pos)
    }
}

impl Duplicate for OffsetFetchResponse {
    fn duplicate(&self) -> (r: OffsetFetchResponse) {
        OffsetFetchResponse {
            throttle_time_ms: self.throttle_time_ms.duplicate(),
            responses: self.responses.duplicate(),
            error_code: self.error_code.duplicate(),
        }
    }
}

/// The committed offsets of one topic.
#[derive(Debug)]
pub struct Response {
    pub topic: String,
    pub partition_responses: Vec<PartitionResponse>,
}

/// What `Response` holds, as plain values.
pub struct ResponseModel {
    pub topic: Seq<char>,
    pub partition_responses: Seq<PartitionResponseModel>,
}

impl DeepView for Response {
    type V = ResponseModel;

    open spec fn deep_view(&self) -> ResponseModel {
        ResponseModel {
            topic: self.topic.deep_view(),
            partition_responses: self.partition_responses.deep_view(),
        }
    }
}

pub open spec fn parse_responses(b0: Seq<u8>) -> Option<(ResponseModel, Seq<u8>)> {
    match <String as ProtocolDeserializable>::parse(b0) {
        None => None,
        Some((topic, b1)) => {
            match <Vec<PartitionResponse> as ProtocolDeserializable>::parse(b1) {
                None => None,
                Some((partition_responses, b2)) => {
                    Some((ResponseModel { topic, partition_responses }, b2))
                },
            }
        },
    }
}

pub fn deserialize_responses(b: &[u8], pos: usize) -> (r: Result<(Response, usize), DeserializeError>)
    requires
        pos <= b@.len(),
    ensures
        read_as(r, b@, pos as int, parse_responses(from_pos(b@, pos as int)), |v: Response| v.deep_view()),
{
    let r1 = <String as ProtocolDeserializable>::read_from(b, pos);
    let (topic, p1) = match r1 {
        Ok(x) => x,
        Err(e) => return Err(e),
    };
    let r2 = <Vec<PartitionResponse> as ProtocolDeserializable>::read_from(b, p1);
    let (partition_responses, p2) = match r2 {
        Ok(x) => x,
        Err(e) => return Err(e),
    };
    Ok((Response { topic, partition_responses }, p2))
}

impl ProtocolDeserializable for Response {
    open spec fn parse(b: Seq<u8>) -> Option<(ResponseModel, Seq<u8>)> {
        parse_responses(b)
    }

    fn read_from(b: &[u8], pos: usize) -> (r: Result<(Response, usize), DeserializeError>) {
        deserialize_responses(b, pos)
    }
}

impl Duplicate for Response {
    fn duplicate(&self) -> (r: Response) {
        Response {
            topic: self.topic.duplicate(),
            partition_responses: self.partition_responses.duplicate(),
        }
    }
}

/// The committed offset of one partition.
#[derive(Debug)]
pub struct PartitionResponse {
    pub partition: i32,
    pub offset: i64,
    pub metadata: Option<String>,
    pub error_code: i16,
}

/// What `PartitionResponse` holds, as plain values.
pub struct PartitionResponseModel {
    pub partition: i32,
    pub offset: i64,
    pub metadata: Option<Seq<char>>,
    pub error_code: i16,
}

impl DeepView for PartitionResponse {
    type V = PartitionResponseModel;

    open spec fn deep_view(&self) -> PartitionResponseModel {
        PartitionResponseModel {
            partition: self.partition.deep_view(),
            offset: self.offset.deep_view(),
            metadata: self.metadata.deep_view(),
            error_code: self.error_code.deep_view(),
        }
    }
}

pub open spec fn parse_partition_responses(b0: Seq<u8>) -> Option<(PartitionResponseModel, Seq<u8>)> {
    match <i32 as ProtocolDeserializable>::parse(b0) {
        None => None,
        Some((partition, b1)) => {
            match <i64 as ProtocolDeserializable>::parse(b1) {
                None => None,
                Some((offset, b2)) => {
                    match <Option<String> as ProtocolDeserializable>::parse(b2) {
                        None => None,
                        Some((metadata, b3)) => {
                            match <i16 as ProtocolDeserializable>::parse(b3) {
                                None => None,
                                Some((error_code, b4)) => {
                                    Some((PartitionResponseModel { partition, offset, metadata, error_code }, b4))
                                },
                            }
                        },
                    }
                },
            }
        },
    }
}

pub fn deserialize_partition_responses(b: &[u8], pos: usize) -> (r: Result<(PartitionResponse, usize), DeserializeError>)
    requires
        pos <= b@.len(),
    ensures
        read_as(r, b@, pos as int, parse_partition_responses(from_pos(b@, pos as int)), |v: PartitionResponse| v.deep_view()),
{
    let r1 = <i32 as ProtocolDeserializable>::read_from(b, pos);
    let (partition, p1) = match r1 {
        Ok(x) => x,
        Err(e) => return Err(e),
    };
    let r2 = <i64 as ProtocolDeserializable>::read_from(b, p1);
    let (offset, p2) = match r2 {
        Ok(x) => x,
        Err(e) => return Err(e),
    };
    let r3 = <Option<String> as ProtocolDeserializable>::read_from(b, p2);
    let (metadata, p3) = match r3 {
        Ok(x) => x,
        Err(e) => return Err(e),
    };
    let r4 = <i16 as ProtocolDeserializable>::read_from(b, p3);
    let (error_code, p4) = match r4 {
        Ok(x) => x,
        Err(e) => return Err(e),
    };
    Ok((PartitionResponse { partition, offset, metadata, error_code }, p4))
}

impl ProtocolDeserializable for PartitionResponse {
    open spec fn parse(b: Seq<u8>) -> Option<(PartitionResponseModel, Seq<u8>)> {
        parse_partition_responses(b)
    }

    fn read_from(b: &[u8], pos: usize) -> (r: Result<(PartitionResponse, usize), DeserializeError>) {
        deserialize_partition_responses(b, pos)
    }
}

impl Duplicate for PartitionResponse {
    fn duplicate(&self) -> (r: PartitionResponse) {
        PartitionResponse {
            partition: self.partition.duplicate(),
            offset: self.offset.duplicate(),
            metadata: self.metadata.duplicate(),
            error_code: self.error_code.duplicate(),
        }
    }
}

} // verus!
