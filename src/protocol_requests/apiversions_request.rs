use crate::codec::ProtocolSerializable;
use crate::protocol_request::KafkaApiVersioned;
use vstd::prelude::*;

verus! {

/// ApiVersions, version 0: an empty body.
#[derive(Debug)]
pub struct ApiVersionsRequest {}

impl KafkaApiVersioned for ApiVersionsRequest {
    open spec fn spec_api_key() -> i16 {
        18
    }

    open spec fn spec_version() -> i16 {
        0
    }

    fn api_key() -> (r: i16) {
        18
    }

    fn version() -> (r: i16) {
        0
    }
}

impl ProtocolSerializable for ApiVersionsRequest {
    open spec fn wire(&self) -> Seq<u8> {
        seq![]
    }

    fn into_protocol_bytes(&self) -> (r: Vec<u8>) {
        let r: Vec<u8> = Vec::new();
        assert(r@ =~= seq![]);
        r
    }
}

} // verus!
