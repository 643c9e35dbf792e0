//! FindCoordinator response, version 1.
use crate::codec::DeserializeError;
use crate::codec::Duplicate;
use crate::codec::ProtocolDeserializable;
use crate::codec::from_pos;
use crate::codec::read_as;
use vstd::prelude::*;

verus! {

/// FindCoordinator, version 1.
#[derive(Debug)]
pub struct FindCoordinatorResponse {
    pub throttle_time_ms: i32,
    pub error_code: i16,
    pub error_message: Option<String>,
    pub coordinator: Coordinator,
}

/// What `FindCoordinatorResponse` holds, as plain values.
pub struct FindCoordinatorResponseModel {
    pub throttle_time_ms: i32,
    pub error_code: i16,
    pub error_message: Option<Seq<char>>,
    pub coordinator: CoordinatorModel,
}

impl DeepView for FindCoordinatorResponse {
    type V = FindCoordinatorResponseModel;

    open spec fn deep_view(&self) -> FindCoordinatorResponseModel {
        FindCoordinatorResponseModel {
            throttle_time_ms: self.throttle_time_ms.deep_view(),
            error_code: self.error_code.deep_view(),
            error_message: self.error_message.deep_view(),
            coordinator: self.coordinator.deep_view(),
        }
    }
}

pub open spec fn parse_findcoordinator_response(b0: Seq<u8>) -> Option<(FindCoordinatorResponseModel, Seq<u8>)> {
    match <i32 as ProtocolDeserializable>::parse(b0) {
        None => None,
        Some((throttle_time_ms, b1)) => {
            match <i16 as ProtocolDeserializable>::parse(b1) {
                None => None,
                Some((error_code, b2)) => {
                    match <Option<String> as ProtocolDeserializable>::parse(b2) {
                        None => None,
                        Some((error_message, b3)) => {
                            match <Coordinator as ProtocolDeserializable>::parse(b3) {
                                None => None,
                                Some((coordinator, b4)) => {
                                    Some((FindCoordinatorResponseModel { throttle_time_ms, error_code, error_message, coordinator }, b4))
                                },
                            }
                        },
                    }
                },
            }
        },
    }
}

pub fn deserialize_findcoordinator_response(b: &[u8], pos: usize) -> (r: Result<(FindCoordinatorResponse, usize), DeserializeError>)
    requires
        pos <= b@.len(),
    ensures
        read_as(r, b@, pos as int, parse_findcoordinator_response(from_pos(b@, pos as int)), |v: FindCoordinatorResponse| v.deep_view()),
{
    let r1 = <i32 as ProtocolDeserializable>::read_from(b, pos);
    let (throttle_time_ms, p1) = match r1 {
        Ok(x) => x,
        Err(e) => return Err(e),
    };
    let r2 = <i16 as ProtocolDeserializable>::read_from(b, p1);
    let (error_code, p2) = match r2 {
        Ok(x) => x,
        Err(e) => return Err(e),
    };
    let r3 = <Option<String> as ProtocolDeserializable>::read_from(b, p2);
    let (error_message, p3) = match r3 {
        Ok(x) => x,
        Err(e) => return Err(e),
    };
    let r4 = <Coordinator as ProtocolDeserializable>::read_from(b, p3);
    let (coordinator, p4) = match r4 {
        Ok(x) => x,
        Err(e) => return Err(e),
    };
    Ok((FindCoordinatorResponse { throttle_time_ms, error_code, error_message, coordinator }, p4))
}

impl ProtocolDeserializable for FindCoordinatorResponse {
    open spec fn parse(b: Seq<u8>) -> Option<(FindCoordinatorResponseModel, Seq<u8>)> {
        parse_findcoordinator_response(b)
    }

    fn read_from(b: &[u8], pos: usize) -> (r: Result<(FindCoordinatorResponse, usize), DeserializeError>) {
        deserialize_findcoordinator_response(b, pos)
    }
}

impl Duplicate for FindCoordinatorResponse {
    fn duplicate(&self) -> (r: FindCoordinatorResponse) {
        FindCoordinatorResponse {
            throttle_time_ms: self.throttle_time_ms.duplicate(),
            error_code: self.error_code.duplicate(),
            error_message: self.error_message.duplicate(),
            coordinator: self.coordinator.duplicate(),
        }
    }
}

/// The broker that coordinates a group.
#[derive(Debug)]
pub struct Coordinator {
    pub node_id: i32,
    pub host: String,
    pub port: i32,
}

/// What `Coordinator` holds, as plain values.
pub struct CoordinatorModel {
    pub node_id: i32,
    pub host: Seq<char>,
    pub port: i32,
}

impl DeepView for Coordinator {
    type V = CoordinatorModel;

    open spec fn deep_view(&self) -> CoordinatorModel {
        CoordinatorModel {
            node_id: self.node_id.deep_view(),
            host: self.host.deep_view(),
            port: self.port.deep_view(),
        }
    }
}

pub open spec fn parse_coordinator(b0: Seq<u8>) -> Option<(CoordinatorModel, Seq<u8>)> {
    match <i32 as ProtocolDeserializable>::parse(b0) {
        None => None,
        Some((node_id, b1)) => {
            match <String as ProtocolDeserializable>::parse(b1) {
                None => None,
                Some((host, b2)) => {
                    match <i32 as ProtocolDeserializable>::parse(b2) {
                        None => None,
                        Some((port, b3)) => {
                            Some((CoordinatorModel { node_id, host, port }, b3))
                        },
                    }
                },
            }
        },
    }
}

pub fn deserialize_coordinator(b: &[u8], pos: usize) -> (r: Result<(Coordinator, usize), DeserializeError>)
    requires
        pos <= b@.len(),
    ensures
        read_as(r, b@, pos as int, parse_coordinator(from_pos(b@, pos as int)), |v: Coordinator| v.deep_view()),
{
    let r1 = <i32 as ProtocolDeserializable>::read_from(b, pos);
    let (node_id, p1) = match r1 {
        Ok(x) => x,
        Err(e) => return Err(e),
    };
    let r2 = <String as ProtocolDeserializable>::read_from(b, p1);
    let (host, p2) = match r2 {
        Ok(x) => x,
        Err(e) => return Err(e),
    };
    let r3 = <i32 as ProtocolDeserializable>::read_from(b, p2);
    let (port, p3) = match r3 {
        Ok(x) => x,
        Err(e) => return Err(e),
    };
    Ok((Coordinator { node_id, host, port }, p3))
}

impl ProtocolDeserializable for Coordinator {
    open spec fn parse(b: Seq<u8>) -> Option<(CoordinatorModel, Seq<u8>)> {
        parse_coordinator(b)
    }

    fn read_from(b: &[u8], pos: usize) -> (r: Result<(Coordinator, usize), DeserializeError>) {
        deserialize_coordinator(b, pos)
    }
}

impl Duplicate for Coordinator {
    fn duplicate(&self) -> (r: Coordinator) {
        Coordinator {
            node_id: self.node_id.duplicate(),
            host: self.host.duplicate(),
            port: self.port.duplicate(),
        }
    }
}

} // verus!
