use crate::codec::ProtocolSerializable;
use crate::codec::encode_i8;
use crate::codec::encode_string;
use crate::codec::i8_bytes;
use crate::codec::string_wire;
use crate::protocol_request::KafkaApiVersioned;
use vstd::prelude::*;

verus! {

/// FindCoordinator, version 1.
#[derive(Debug)]
pub struct FindCoordinatorRequest {
    pub coordinator_key: String,
    pub coordinator_type: i8,
}

/// What a coordinator is looked up for.
#[derive(Clone, Copy, Debug, PartialEq, Eq)]
pub enum CoordinatorType {
    Group,
    Transaction,
}

impl CoordinatorType {
    pub open spec fn spec_code(self) -> i8 {
        match self {
            CoordinatorType::Group => 0,
            CoordinatorType::Transaction => 1,
        }
    }

    /// The code of this kind on the wire.
    pub fn code(&self) -> (r: i8)
        ensures
            r == self.spec_code(),
    {
        match self {
            CoordinatorType::Group => 0,
            CoordinatorType::Transaction => 1,
        }
    }
}

impl KafkaApiVersioned for FindCoordinatorRequest {
    open spec fn spec_api_key() -> i16 {
        10
    }

    open spec fn spec_version() -> i16 {
        1
    }

    fn api_key() -> (r: i16) {
        10
    }

    fn version() -> (r: i16) {
        1
    }
}

impl ProtocolSerializable for FindCoordinatorRequest {
    open spec fn wire(&self) -> Seq<u8> {
        string_wire(self.coordinator_key@) + i8_bytes(self.coordinator_type)
    }

    fn into_protocol_bytes(&self) -> (r: Vec<u8>) {
        let mut r = encode_string(&self.coordinator_key);
        let mut t = encode_i8(self.coordinator_type);
        r.append(&mut t);
        r
    }
}

} // verus!
