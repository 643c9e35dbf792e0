use crate::codec::ProtocolSerializable;
use crate::codec::array_wire;
use crate::codec::bool_bytes;
use crate::codec::encode_bool;
use crate::codec::encode_i8;
use crate::codec::encode_nullable_string;
use crate::codec::encode_string;
use crate::codec::i8_bytes;
use crate::codec::nullable_string_wire;
use crate::codec::option_string_model;
use crate::codec::string_wire;
use crate::protocol_request::KafkaApiVersioned;
use vstd::prelude::*;

verus! {

/// AlterConfigs, version 0. The broker replaces every override of each
/// resource with the entries given.
#[derive(Debug)]
pub struct AlterConfigsRequest {
    pub resources: Vec<Resource>,
    pub validate_only: bool,
}

#[derive(Debug)]
pub struct Resource {
    pub resource_type: i8,
    pub resource_name: String,
    pub config_entries: Vec<ConfigEntry>,
}

#[derive(Debug)]
pub struct ConfigEntry {
    pub config_name: String,
    pub config_value: Option<String>,
}

impl KafkaApiVersioned for AlterConfigsRequest {
    open spec fn spec_api_key() -> i16 {
        33
    }

    open spec fn spec_version() -> i16 {
        0
    }

    fn api_key() -> (r: i16) {
        33
    }

    fn version() -> (r: i16) {
        0
    }
}

impl ProtocolSerializable for AlterConfigsRequest {
    open spec fn wire(&self) -> Seq<u8> {
        array_wire(self.resources@) + bool_bytes(self.validate_only)
    }

    fn into_protocol_bytes(&self) -> (r: Vec<u8>) {
        let mut r = self.resources.into_protocol_bytes();
        let mut v = encode_bool(self.validate_only);
        r.append(&mut v);
        r
    }
}

impl ProtocolSerializable for Resource {
    open spec fn wire(&self) -> Seq<u8> {
        i8_bytes(self.resource_type) + string_wire(self.resource_name@) + array_wire(
            self.config_entries@,
        )
    }

    fn into_protocol_bytes(&self) -> (r: Vec<u8>) {
        let mut r = encode_i8(self.resource_type);
        let mut n = encode_string(&self.resource_name);
        r.append(&mut n);
        let mut c = self.config_entries.into_protocol_bytes();
        r.append(&mut c);
        r
    }
}

impl ProtocolSerializable for ConfigEntry {
    open spec fn wire(&self) -> Seq<u8> {
        string_wire(self.config_name@) + nullable_string_wire(option_string_model(self.config_value))
    }

    fn into_protocol_bytes(&self) -> (r: Vec<u8>) {
        let mut r = encode_string(&self.config_name);
        let mut v = encode_nullable_string(&self.config_value);
        r.append(&mut v);
        r
    }
}

} // verus!
