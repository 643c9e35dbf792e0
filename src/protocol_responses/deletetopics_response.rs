//! DeleteTopics response, version 1.
use crate::codec::DeserializeError;
use crate::codec::Duplicate;
use crate::codec::ProtocolDeserializable;
use crate::codec::from_pos;
use crate::codec::read_as;
use vstd::prelude::*;

verus! {

/// DeleteTopics, version 1.
#[derive(Debug)]
pub struct DeleteTopicsResponse {
    pub throttle_time_ms: i32,
    pub topic_error_codes: Vec<TopicErrorCode>,
}

/// What `DeleteTopicsResponse` holds, as plain values.
pub struct DeleteTopicsResponseModel {
    pub throttle_time_ms: i32,
    pub topic_error_codes: Seq<TopicErrorCodeModel>,
}

impl DeepView for DeleteTopicsResponse {
    type V = DeleteTopicsResponseModel;

    open spec fn deep_view(&self) -> DeleteTopicsResponseModel {
        DeleteTopicsResponseModel {
            throttle_time_ms: self.throttle_time_ms.deep_view(),
            topic_error_codes: self.topic_error_codes.deep_view(),
        }
    }
}

pub open spec fn parse_deletetopics_response(b0: Seq<u8>) -> Option<(DeleteTopicsResponseModel, Seq<u8>)> {
    match <i32 as ProtocolDeserializable>::parse(b0) {
        None => None,
        Some((throttle_time_ms, b1)) => {
            match <Vec<TopicErrorCode> as ProtocolDeserializable>::parse(b1) {
                None => None,
                Some((topic_error_codes, b2)) => {
                    Some((DeleteTopicsResponseModel { throttle_time_ms, topic_error_codes }, b2))
                },
            }
        },
    }
}

pub fn deserialize_deletetopics_response(b: &[u8], pos: usize) -> (r: Result<(DeleteTopicsResponse, usize), DeserializeError>)
    requires
        pos <= b@.len(),
    ensures
        read_as(r, b@, pos as int, parse_deletetopics_response(from_pos(b@, pos as int)), |v: DeleteTopicsResponse| v.deep_view()),
{
    let r1 = <i32 as ProtocolDeserializable>::read_from(b, pos);
    let (throttle_time_ms, p1) = match r1 {
        Ok(x) => x,
        Err(e) => return Err(e),
    };
    let r2 = <Vec<TopicErrorCode> as ProtocolDeserializable>::read_from(b, p1);
    let (topic_error_codes, p2) = match r2 {
        Ok(x) => x,
        Err(e) => return Err(e),
    };
    Ok((DeleteTopicsResponse { throttle_time_ms, topic_error_codes }, p2))
}

impl ProtocolDeserializable for DeleteTopicsResponse {
    open spec fn parse(b: Seq<u8>) -> Option<(DeleteTopicsResponseModel, Seq<u8>)> {
        parse_deletetopics_response(b)
    }

    fn read_from(b: &[u8], pos: usize) -> (r: Result<(DeleteTopicsResponse, usize), DeserializeError>) {
        deserialize_deletetopics_response(b, pos)
    }
}

impl Duplicate for DeleteTopicsResponse {
    fn duplicate(&self) -> (r: DeleteTopicsResponse) {
        DeleteTopicsResponse {
            throttle_time_ms: self.throttle_time_ms.duplicate(),
            topic_error_codes: self.topic_error_codes.duplicate(),
        }
    }
}

/// The outcome for one topic.
#[derive(Debug)]
pub struct TopicErrorCode {
    pub topic: String,
    pub error_code: i16,
}

/// What `TopicErrorCode` holds, as plain values.
pub struct TopicErrorCodeModel {
    pub topic: Seq<char>,
    pub error_code: i16,
}

impl DeepView for TopicErrorCode {
    type V = TopicErrorCodeModel;

    open spec fn deep_view(&self) -> TopicErrorCodeModel {
        TopicErrorCodeModel {
            topic: self.topic.deep_view(),
            error_code: self.error_code.deep_view(),
        }
    }
}

pub open spec fn parse_topic_error_codes(b0: Seq<u8>) -> Option<(TopicErrorCodeModel, Seq<u8>)> {
    match <String as ProtocolDeserializable>::parse(b0) {
        None => None,
        Some((topic, b1)) => {
            match <i16 as ProtocolDeserializable>::parse(b1) {
                None => None,
                Some((error_code, b2)) => {
                    Some((TopicErrorCodeModel { topic, error_code }, b2))
                },
            }
        },
    }
}

pub fn deserialize_topic_error_codes(b: &[u8], pos: usize) -> (r: Result<(TopicErrorCode, usize), DeserializeError>)
    requires
        pos <= b@.len(),
    ensures
        read_as(r, b@, pos as int, parse_topic_error_codes(from_pos(b@, pos as int)), |v: TopicErrorCode| v.deep_view()),
{
    let r1 = <String as ProtocolDeserializable>::read_from(b, pos);
    let (topic, p1) = match r1 {
        Ok(x) => x,
        Err(e) => return Err(e),
    };
    let r2 = <i16 as ProtocolDeserializable>::read_from(b, p1);
    let (error_code, p2) = match r2 {
        Ok(x) => x,
        Err(e) => return Err(e),
    };
    Ok((TopicErrorCode { topic, error_code }, p2))
}

impl ProtocolDeserializable for TopicErrorCode {
    open spec fn parse(b: Seq<u8>) -> Option<(TopicErrorCodeModel, Seq<u8>)> {
        parse_topic_error_codes(b)
    }

    fn read_from(b: &[u8], pos: usize) -> (r: Result<(TopicErrorCode, usize), DeserializeError>) {
        deserialize_topic_error_codes(b, pos)
    }
}

impl Duplicate for TopicErrorCode {
    fn duplicate(&self) -> (r: TopicErrorCode) {
        TopicErrorCode {
            topic: self.topic.duplicate(),
            error_code: self.error_code.duplicate(),
        }
    }
}

} // verus!
