use crate::codec::ProtocolSerializable;
use crate::codec::array_wire;
use crate::codec::bool_bytes;
use crate::codec::encode_bool;
use crate::codec::encode_i32;
use crate::codec::encode_i8;
use crate::codec::encode_string;
use crate::codec::i32_bytes;
use crate::codec::i8_bytes;
use crate::codec::string_wire;
use crate::protocol_request::KafkaApiVersioned;
use vstd::prelude::*;

verus! {

/// DescribeConfigs, version 1.
#[derive(Debug)]
pub struct DescribeConfigsRequest {
    pub resources: Vec<Resource>,
    pub include_synonyms: bool,
}

/// A resource whose configuration is asked for; `config_names` is `None`
/// for all of its entries.
#[derive(Debug)]
pub struct Resource {
    pub resource_type: i8,
    pub resource_name: String,
    pub config_names: Option<Vec<String>>,
}

impl KafkaApiVersioned for DescribeConfigsRequest {
    open spec fn spec_api_key() -> i16 {
        32
    }

    open spec fn spec_version() -> i16 {
        1
    }

    fn api_key() -> (r: i16) {
        32
    }

    fn version() -> (r: i16) {
        1
    }
}

impl ProtocolSerializable for DescribeConfigsRequest {
    open spec fn wire(&self) -> Seq<u8> {
        array_wire(self.resources@) + bool_bytes(self.include_synonyms)
    }

    fn into_protocol_bytes(&self) -> (r: Vec<u8>) {
        let mut r = self.resources.into_protocol_bytes();
        let mut s = encode_bool(self.include_synonyms);
        r.append(&mut s);
        r
    }
}

impl ProtocolSerializable for Resource {
    open spec fn wire(&self) -> Seq<u8> {
        i8_bytes(self.resource_type) + string_wire(self.resource_name@) + match self.config_names {
            Some(n) => array_wire(n@),
            None => i32_bytes(-1i32),
        }
    }

    fn into_protocol_bytes(&self) -> (r: Vec<u8>) {
        let mut r = encode_i8(self.resource_type);
        let mut n = encode_string(&self.resource_name);
        r.append(&mut n);
        let mut c = match &self.config_names {
            Some(names) => names.into_protocol_bytes(),
            None => encode_i32(-1),
        };
        r.append(&mut c);
        r
    }
}

} // verus!
