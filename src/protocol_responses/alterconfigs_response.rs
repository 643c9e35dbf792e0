//! AlterConfigs response, version 0.
use crate::codec::DeserializeError;
use crate::codec::Duplicate;
use crate::codec::ProtocolDeserializable;
use crate::codec::from_pos;
use crate::codec::read_as;
use vstd::prelude::*;

verus! {

/// AlterConfigs, version 0.
#[derive(Debug)]
pub struct AlterConfigsResponse {
    pub throttle_time_ms: i32,
    pub resources: Vec<Resource>,
}

/// What `AlterConfigsResponse` holds, as plain values.
pub struct AlterConfigsResponseModel {
    pub throttle_time_ms: i32,
    pub resources: Seq<ResourceModel>,
}

impl DeepView for AlterConfigsResponse {
    type V = AlterConfigsResponseModel;

    open spec fn deep_view(&self) -> AlterConfigsResponseModel {
        AlterConfigsResponseModel {
            throttle_time_ms: self.throttle_time_ms.deep_view(),
            resources: self.resources.deep_view(),
        }
    }
}

pub open spec fn parse_alterconfigs_response(b0: Seq<u8>) -> Option<(AlterConfigsResponseModel, Seq<u8>)> {
    match <i32 as ProtocolDeserializable>::parse(b0) {
        None => None,
        Some((throttle_time_ms, b1)) => {
            match <Vec<Resource> as ProtocolDeserializable>::parse(b1) {
                None => None,
                Some((resources, b2)) => {
                    Some((AlterConfigsResponseModel { throttle_time_ms, resources }, b2))
                },
            }
        },
    }
}

pub fn deserialize_alterconfigs_response(b: &[u8], pos: usize) -> (r: Result<(AlterConfigsResponse, usize), DeserializeError>)
    requires
        pos <= b@.len(),
    ensures
        read_as(r, b@, pos as int, parse_alterconfigs_response(from_pos(b@, pos as int)), |v: AlterConfigsResponse| v.deep_view()),
{
    let r1 = <i32 as ProtocolDeserializable>::read_from(b, pos);
    let (throttle_time_ms, p1) = match r1 {
        Ok(x) => x,
        Err(e) => return Err(e),
    };
    let r2 = <Vec<Resource> as ProtocolDeserializable>::read_from(b, p1);
    let (resources, p2) = match r2 {
        Ok(x) => x,
        Err(e) => return Err(e),
    };
    Ok((AlterConfigsResponse { throttle_time_ms, resources }, p2))
}

impl ProtocolDeserializable for AlterConfigsResponse {
    open spec fn parse(b: Seq<u8>) -> Option<(AlterConfigsResponseModel, Seq<u8>)> {
        parse_alterconfigs_response(b)
    }

    fn read_from(b: &[u8], pos: usize) -> (r: Result<(AlterConfigsResponse, usize), DeserializeError>) {
        deserialize_alterconfigs_response(b, pos)
    }
}

impl Duplicate for AlterConfigsResponse {
    fn duplicate(&self) -> (r: AlterConfigsResponse) {
        AlterConfigsResponse {
            throttle_time_ms: self.throttle_time_ms.duplicate(),
            resources: self.resources.duplicate(),
        }
    }
}

/// The outcome for one resource.
#[derive(Debug)]
pub struct Resource {
    pub error_code: i16,
    pub error_message: Option<String>,
    pub resource_type: i8,
    pub resource_name: String,
}

/// What `Resource` holds, as plain values.
pub struct ResourceModel {
    pub error_code: i16,
    pub error_message: Option<Seq<char>>,
    pub resource_type: i8,
    pub resource_name: Seq<char>,
}

impl DeepView for Resource {
    type V = ResourceModel;

    open spec fn deep_view(&self) -> ResourceModel {
        ResourceModel {
            error_code: self.error_code.deep_view(),
            error_message: self.error_message.deep_view(),
            resource_type: self.resource_type.deep_view(),
            resource_name: self.resource_name.deep_view(),
        }
    }
}

pub open spec fn parse_resource(b0: Seq<u8>) -> Option<(ResourceModel, Seq<u8>)> {
    match <i16 as ProtocolDeserializable>::parse(b0) {
        None => None,
        Some((error_code, b1)) => {
            match <Option<String> as ProtocolDeserializable>::parse(b1) {
                None => None,
                Some((error_message, b2)) => {
                    match <i8 as ProtocolDeserializable>::parse(b2) {
                        None => None,
                        Some((resource_type, b3)) => {
                            match <String as ProtocolDeserializable>::parse(b3) {
                                None => None,
                                Some((resource_name, b4)) => {
                                    Some((ResourceModel { error_code, error_message, resource_type, resource_name }, b4))
                                },
                            }
                        },
                    }
                },
            }
        },
    }
}

pub fn deserialize_resource(b: &[u8], pos: usize) -> (r: Result<(Resource, usize), DeserializeError>)
    requires
        pos <= b@.len(),
    ensures
        read_as(r, b@, pos as int, parse_resource(from_pos(b@, pos as int)), |v: Resource| v.deep_view()),
{
    let r1 = <i16 as ProtocolDeserializable>::read_from(b, pos);
    let (error_code, p1) = match r1 {
        Ok(x) => x,
        Err(e) => return Err(e),
    };
    let r2 = <Option<String> as ProtocolDeserializable>::read_from(b, p1);
    let (error_message, p2) = match r2 {
        Ok(x) => x,
        Err(e) => return Err(e),
    };
    let r3 = <i8 as ProtocolDeserializable>::read_from(b, p2);
    let (resource_type, p3) = match r3 {
        Ok(x) => x,
        Err(e) => return Err(e),
    };
    let r4 = <String as ProtocolDeserializable>::read_from(b, p3);
    let (resource_name, p4) = match r4 {
        Ok(x) => x,
        Err(e) => return Err(e),
    };
    Ok((Resource { error_code, error_message, resource_type, resource_name }, p4))
}

impl ProtocolDeserializable for Resource {
    open spec fn parse(b: Seq<u8>) -> Option<(ResourceModel, Seq<u8>)> {
        parse_resource(b)
    }

    fn read_from(b: &[u8], pos: usize) -> (r: Result<(Resource, usize), DeserializeError>) {
        deserialize_resource(b, pos)
    }
}

impl Duplicate for Resource {
    fn duplicate(&self) -> (r: Resource) {
        Resource {
            error_code: self.error_code.duplicate(),
            error_message: self.error_message.duplicate(),
            resource_type: self.resource_type.duplicate(),
            resource_name: self.resource_name.duplicate(),
        }
    }
}

} // verus!
