//! CreateTopics response, version 1.
use crate::codec::DeserializeError;
use crate::codec::Duplicate;
use crate::codec::ProtocolDeserializable;
use crate::codec::from_pos;
use crate::codec::read_as;
use vstd::prelude::*;

verus! {

/// CreateTopics, version 1.
#[derive(Debug)]
pub struct CreateTopicsResponse {
    pub topic_errors: Vec<TopicError>,
}

/// What `CreateTopicsResponse` holds, as plain values.
pub struct CreateTopicsResponseModel {
    pub topic_errors: Seq<TopicErrorModel>,
}

impl DeepView for CreateTopicsResponse {
    type V = CreateTopicsResponseModel;

    open spec fn deep_view(&self) -> CreateTopicsResponseModel {
        CreateTopicsResponseModel {
            topic_errors: self.topic_errors.deep_view(),
        }
    }
}

pub open spec fn parse_createtopics_response(b0: Seq<u8>) -> Option<(CreateTopicsResponseModel, Seq<u8>)> {
    match <Vec<TopicError> as ProtocolDeserializable>::parse(b0) {
        None => None,
        Some((topic_errors, b1)) => {
            Some((CreateTopicsResponseModel { topic_errors }, b1))
        },
    }
}

pub fn deserialize_createtopics_response(b: &[u8], pos: usize) -> (r: Result<(CreateTopicsResponse, usize), DeserializeError>)
    requires
        pos <= b@.len(),
    ensures
        read_as(r, b@, pos as int, parse_createtopics_response(from_pos(b@, pos as int)), |v: CreateTopicsResponse| v.deep_view()),
{
    let r1 = <Vec<TopicError> as ProtocolDeserializable>::read_from(b, pos);
    let (topic_errors, p1) = match r1 {
        Ok(x) => x,
        Err(e) => return Err(e),
    };
    Ok((CreateTopicsResponse { topic_errors }, p1))
}

impl ProtocolDeserializable for CreateTopicsResponse {
    open spec fn parse(b: Seq<u8>) -> Option<(CreateTopicsResponseModel, Seq<u8>)> {
        parse_createtopics_response(b)
    }

    fn read_from(b: &[u8], pos: usize) -> (r: Result<(CreateTopicsResponse, usize), DeserializeError>) {
        deserialize_createtopics_response(b, pos)
    }
}

impl Duplicate for CreateTopicsResponse {
    fn duplicate(&self) -> (r: CreateTopicsResponse) {
        CreateTopicsResponse {
            topic_errors: self.topic_errors.duplicate(),
        }
    }
}

/// The outcome for one topic.
#[derive(Debug)]
pub struct TopicError {
    pub topic: String,
    pub error_code: i16,
    pub error_message: Option<String>,
}

/// What `TopicError` holds, as plain values.
pub struct TopicErrorModel {
    pub topic: Seq<char>,
    pub error_code: i16,
    pub error_message: Option<Seq<char>>,
}

impl DeepView for TopicError {
    type V = TopicErrorModel;

    open spec fn deep_view(&self) -> TopicErrorModel {
        TopicErrorModel {
            topic: self.topic.deep_view(),
            error_code: self.error_code.deep_view(),
            error_message: self.error_message.deep_view(),
        }
    }
}

pub open spec fn parse_topic_error(b0: Seq<u8>) -> Option<(TopicErrorModel, Seq<u8>)> {
    match <String as ProtocolDeserializable>::parse(b0) {
        None => None,
        Some((topic, b1)) => {
            match <i16 as ProtocolDeserializable>::parse(b1) {
                None => None,
                Some((error_code, b2)) => {
                    match <Option<String> as ProtocolDeserializable>::parse(b2) {
                        None => None,
                        Some((error_message, b3)) => {
                            Some((TopicErrorModel { topic, error_code, error_message }, b3))
                        },
                    }
                },
            }
        },
    }
}

pub fn deserialize_topic_error(b: &[u8], pos: usize) -> (r: Result<(TopicError, usize), DeserializeError>)
    requires
        pos <= b@.len(),
    ensures
        read_as(r, b@, pos as int, parse_topic_error(from_pos(b@, pos as int)), |v: TopicError| v.deep_view()),
{
    let r1 = <String as ProtocolDeserializable>::read_from(b, pos);
    let (topic, p1) = match r1 {
        Ok(x) => x,
        Err(e) => return Err(e),
    };
    let r2 = <i16 as ProtocolDeserializable>::read_from(b, p1);
    let (error_code, p2) = match r2 {
        Ok(x) => x,
        Err(e) => return Err(e),
    };
    let r3 = <Option<String> as ProtocolDeserializable>::read_from(b, p2);
    let (error_message, p3) = match r3 {
        Ok(x) => x,
        Err(e) => return Err(e),
    };
    Ok((TopicError { topic, error_code, error_message }, p3))
}

impl ProtocolDeserializable for TopicError {
    open spec fn parse(b: Seq<u8>) -> Option<(TopicErrorModel, Seq<u8>)> {
        parse_topic_error(b)
    }

    fn read_from(b: &[u8], pos: usize) -> (r: Result<(TopicError, usize), DeserializeError>) {
        deserialize_topic_error(b, pos)
    }
}

impl Duplicate for TopicError {
    fn duplicate(&self) -> (r: TopicError) {
        TopicError {
            topic: self.topic.duplicate(),
            error_code: self.error_code.duplicate(),
            error_message: self.error_message.duplicate(),
        }
    }
}

} // verus!
