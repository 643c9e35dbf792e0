//! ListOffsets response, version 2.
use crate::codec::DeserializeError;
use crate::codec::Duplicate;
use crate::codec::ProtocolDeserializable;
use crate::codec::from_pos;
use crate::codec::read_as;
use vstd::prelude::*;

verus! {

/// ListOffsets, version 2.
#[derive(Debug)]
pub struct ListOffsetsResponse {
    pub throttle_time_ms: i32,
    pub responses: Vec<Response>,
}

/// What `ListOffsetsResponse` holds, as plain values.
pub struct ListOffsetsResponseModel {
    pub throttle_time_ms: i32,
    pub responses: Seq<ResponseModel>,
}

impl DeepView for ListOffsetsResponse {
    type V = ListOffsetsResponseModel;

    open spec fn deep_view(&self) -> ListOffsetsResponseModel {
        ListOffsetsResponseModel {
            throttle_time_ms: self.throttle_time_ms.deep_view(),
            responses: self.responses.deep_view(),
        }
    }
}

pub open spec fn parse_listoffsets_response(b0: Seq<u8>) -> Option<(ListOffsetsResponseModel, Seq<u8>)> {
    match <i32 as ProtocolDeserializable>::parse(b0) {
        None => None,
        Some((throttle_time_ms, b1)) => {
            match <Vec<Response> as ProtocolDeserializable>::parse(b1) {
                None => None,
                Some((responses, b2)) => {
                    Some((ListOffsetsResponseModel { throttle_time_ms, responses }, b2))
                },
            }
        },
    }
}

pub fn deserialize_listoffsets_response(b: &[u8], pos: usize) -> (r: Result<(ListOffsetsResponse, usize), DeserializeError>)
    requires
        pos <= b@.len(),
    ensures
        read_as(r, b@, pos as int, parse_listoffsets_response(from_pos(b@, pos as int)), |v: ListOffsetsResponse| v.deep_view()),
{
    let r1 = <i32 as ProtocolDeserializable>::read_from(b, pos);
    let (throttle_time_ms, p1) = match r1 {
        Ok(x) => x,
        Err(e) => return Err(e),
    };
    let r2 = <Vec<Response> as ProtocolDeserializable>::read_from(b, p1);
    let (responses, p2) = match r2 {
        Ok(x) => x,
        Err(e) => return Err(e),
    };
    Ok((ListOffsetsResponse { throttle_time_ms, responses }, p2))
}

impl ProtocolDeserializable for ListOffsetsResponse {
    open spec fn parse(b: Seq<u8>) -> Option<(ListOffsetsResponseModel, Seq<u8>)> {
        parse_listoffsets_response(b)
    }

    fn read_from(b: &[u8], pos: usize) -> (r: Result<(ListOffsetsResponse, usize), DeserializeError>) {
        deserialize_listoffsets_response(b, pos)
    }
}

impl Duplicate for ListOffsetsResponse {
    fn duplicate(&self) -> (r: ListOffsetsResponse) {
        ListOffsetsResponse {
            throttle_time_ms: self.throttle_time_ms.duplicate(),
            responses: self.responses.duplicate(),
        }
    }
}

/// The offsets of one topic.
#[derive(Debug)]
pub struct Response {
    pub topic: String,
    pub partition_responses: Vec<PartitionResponse>,
}

/// What `Response` holds, as plain values.
pub struct ResponseModel {
    pub topic: Seq<char>,
    pub partition_responses: Seq<PartitionResponseModel>,
}

impl DeepView for Response {
    type V = ResponseModel;

    open spec fn deep_view(&self) -> ResponseModel {
        ResponseModel {
            topic: self.topic.deep_view(),
            partition_responses: self.partition_responses.deep_view(),
        }
    }
}

pub open spec fn parse_response(b0: Seq<u8>) -> Option<(ResponseModel, Seq<u8>)> {
    match <String as ProtocolDeserializable>::parse(b0) {
        None => None,
        Some((topic, b1)) => {
            match <Vec<PartitionResponse> as ProtocolDeserializable>::parse(b1) {
                None => None,
                Some((partition_responses, b2)) => {
                    Some((ResponseModel { topic, partition_responses }, b2))
                },
            }
        },
    }
}

pub fn deserialize_response(b: &[u8], pos: usize) -> (r: Result<(Response, usize), DeserializeError>)
    requires
        pos <= b@.len(),
    ensures
        read_as(r, b@, pos as int, parse_response(from_pos(b@, pos as int)), |v: Response| v.deep_view()),
{
    let r1 = <String as ProtocolDeserializable>::read_from(b, pos);
    let (topic, p1) = match r1 {
        Ok(x) => x,
        Err(e) => return Err(e),
    };
    let r2 = <Vec<PartitionResponse> as ProtocolDeserializable>::read_from(b, p1);
    let (partition_responses, p2) = match r2 {
        Ok(x) => x,
        Err(e) => return Err(e),
    };
    Ok((Response { topic, partition_responses }, p2))
}

impl ProtocolDeserializable for Response {
    open spec fn parse(b: Seq<u8>) -> Option<(ResponseModel, Seq<u8>)> {
        parse_response(b)
    }

    fn read_from(b: &[u8], pos: usize) -> (r: Result<(Response, usize), DeserializeError>) {
        deserialize_response(b, pos)
    }
}

impl Duplicate for Response {
    fn duplicate(&self) -> (r: Response) {
        Response {
            topic: self.topic.duplicate(),
            partition_responses: self.partition_responses.duplicate(),
        }
    }
}

/// The offset of one partition.
#[derive(Debug)]
pub struct PartitionResponse {
    pub partition: i32,
    pub error_code: i16,
    pub timestamp: i64,
    pub offset: i64,
}

/// What `PartitionResponse` holds, as plain values.
pub struct PartitionResponseModel {
    pub partition: i32,
    pub error_code: i16,
    pub timestamp: i64,
    pub offset: i64,
}

impl DeepView for PartitionResponse {
    type V = PartitionResponseModel;

    open spec fn deep_view(&self) -> PartitionResponseModel {
        PartitionResponseModel {
            partition: self.partition.deep_view(),
            error_code: self.error_code.deep_view(),
            timestamp: self.timestamp.deep_view(),
            offset: self.offset.deep_view(),
        }
    }
}

pub open spec fn parse_partition_response(b0: Seq<u8>) -> Option<(PartitionResponseModel, Seq<u8>)> {
    match <i32 as ProtocolDeserializable>::parse(b0) {
        None => None,
        Some((partition, b1)) => {
            match <i16 as ProtocolDeserializable>::parse(b1) {
                None => None,
                Some((error_code, b2)) => {
                    match <i64 as ProtocolDeserializable>::parse(b2) {
                        None => None,
                        Some((timestamp, b3)) => {
                            match <i64 as ProtocolDeserializable>::parse(b3) {
                                None => None,
                                Some((offset, b4)) => {
                                    Some((PartitionResponseModel { partition, error_code, timestamp, offset }, b4))
                                },
                            }
                        },
                    }
                },
            }
        },
    }
}

pub fn deserialize_partition_response(b: &[u8], pos: usize) -> (r: Result<(PartitionResponse, usize), DeserializeError>)
    requires
        pos <= b@.len(),
    ensures
        read_as(r, b@, pos as int, parse_partition_response(from_pos(b@, pos as int)), |v: PartitionResponse| v.deep_view()),
{
    let r1 = <i32 as ProtocolDeserializable>::read_from(b, pos);
    let (partition, p1) = match r1 {
        Ok(x) => x,
        Err(e) => return Err(e),
    };
    let r2 = <i16 as ProtocolDeserializable>::read_from(b, p1);
    let (error_code, p2) = match r2 {
        Ok(x) => x,
        Err(e) => return Err(e),
    };
    let r3 = <i64 as ProtocolDeserializable>::read_from(b, p2);
    let (timestamp, p3) = match r3 {
        Ok(x) => x,
        Err(e) => return Err(e),
    };
    let r4 = <i64 as ProtocolDeserializable>::read_from(b, p3);
    let (offset, p4) = match r4 {
        Ok(x) => x,
        Err(e) => return Err(e),
    };
    Ok((PartitionResponse { partition, error_code, timestamp, offset }, p4))
}

impl ProtocolDeserializable for PartitionResponse {
    open spec fn parse(b: Seq<u8>) -> Option<(PartitionResponseModel, Seq<u8>)> {
        parse_partition_response(b)
    }

    fn read_from(b: &[u8], pos: usize) -> (r: Result<(PartitionResponse, usize), DeserializeError>) {
        deserialize_partition_response(b, pos)
    }
}

impl Duplicate for PartitionResponse {
    fn duplicate(&self) -> (r: PartitionResponse) {
        PartitionResponse {
            partition: self.partition.duplicate(),
            error_code: self.error_code.duplicate(),
            timestamp: self.timestamp.duplicate(),
            offset: self.offset.duplicate(),
        }
    }
}

} // verus!
