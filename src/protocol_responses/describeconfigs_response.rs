//! DescribeConfigs response, version 1.
use crate::codec::DeserializeError;
use crate::codec::Duplicate;
use crate::codec::ProtocolDeserializable;
use crate::codec::from_pos;
use crate::codec::read_as;
use vstd::prelude::*;

verus! {

/// DescribeConfigs, version 1.
#[derive(Debug)]
pub struct DescribeConfigsResponse {
    pub throttle_time_ms: i32,
    pub resources: Vec<Resource>,
}

/// What `DescribeConfigsResponse` holds, as plain values.
pub struct DescribeConfigsResponseModel {
    pub throttle_time_ms: i32,
    pub resources: Seq<ResourceModel>,
}

impl DeepView for DescribeConfigsResponse {
    type V = DescribeConfigsResponseModel;

    open spec fn deep_view(&self) -> DescribeConfigsResponseModel {
        DescribeConfigsResponseModel {
            throttle_time_ms: self.throttle_time_ms.deep_view(),
            resources: self.resources.deep_view(),
        }
    }
}

pub open spec fn parse_describeconfigs_response(b0: Seq<u8>) -> Option<(DescribeConfigsResponseModel, Seq<u8>)> {
    match <i32 as ProtocolDeserializable>::parse(b0) {
        None => None,
        Some((throttle_time_ms, b1)) => {
            match <Vec<Resource> as ProtocolDeserializable>::parse(b1) {
                None => None,
                Some((resources, b2)) => {
                    Some((DescribeConfigsResponseModel { throttle_time_ms, resources }, b2))
                },
            }
        },
    }
}

pub fn deserialize_describeconfigs_response(b: &[u8], pos: usize) -> (r: Result<(DescribeConfigsResponse, usize), DeserializeError>)
    requires
        pos <= b@.len(),
    ensures
        read_as(r, b@, pos as int, parse_describeconfigs_response(from_pos(b@, pos as int)), |v: DescribeConfigsResponse| v.deep_view()),
{
    let r1 = <i32 as ProtocolDeserializable>::read_from(b, pos);
    let (throttle_time_ms, p1) = match r1 {
        Ok(x) => x,
        Err(e) => return Err(e),
    };
    let r2 = <Vec<Resource> as ProtocolDeserializable>::read_from(b, p1);
    let (resources, p2) = match r2 {
        Ok(x) => x,
        Err(e) => return Err(e),
    };
    Ok((DescribeConfigsResponse { throttle_time_ms, resources }, p2))
}

impl ProtocolDeserializable for DescribeConfigsResponse {
    open spec fn parse(b: Seq<u8>) -> Option<(DescribeConfigsResponseModel, Seq<u8>)> {
        parse_describeconfigs_response(b)
    }

    fn read_from(b: &[u8], pos: usize) -> (r: Result<(DescribeConfigsResponse, usize), DeserializeError>) {
        deserialize_describeconfigs_response(b, pos)
    }
}

impl Duplicate for DescribeConfigsResponse {
    fn duplicate(&self) -> (r: DescribeConfigsResponse) {
        DescribeConfigsResponse {
            throttle_time_ms: self.throttle_time_ms.duplicate(),
            resources: self.resources.duplicate(),
        }
    }
}

/// The configuration of one resource.
#[derive(Debug)]
pub struct Resource {
    pub error_code: i16,
    pub error_message: Option<String>,
    pub resource_type: i8,
    pub resource_name: String,
    pub config_entries: Vec<ConfigEntry>,
}

/// What `Resource` holds, as plain values.
pub struct ResourceModel {
    pub error_code: i16,
    pub error_message: Option<Seq<char>>,
    pub resource_type: i8,
    pub resource_name: Seq<char>,
    pub config_entries: Seq<ConfigEntryModel>,
}

impl DeepView for Resource {
    type V = ResourceModel;

    open spec fn deep_view(&self) -> ResourceModel {
        ResourceModel {
            error_code: self.error_code.deep_view(),
            error_message: self.error_message.deep_view(),
            resource_type: self.resource_type.deep_view(),
            resource_name: self.resource_name.deep_view(),
            config_entries: self.config_entries.deep_view(),
        }
    }
}

pub open spec fn parse_resource(b0: Seq<u8>) -> Option<(ResourceModel, Seq<u8>)> {
    match <i16 as ProtocolDeserializable>::parse(b0) {
        None => None,
        Some((error_code, b1)) => {
            match <Option<String> as ProtocolDeserializable>::parse(b1) {
                None => None,
                Some((error_message, b2)) => {
                    match <i8 as ProtocolDeserializable>::parse(b2) {
                        None => None,
                        Some((resource_type, b3)) => {
                            match <String as ProtocolDeserializable>::parse(b3) {
                                None => None,
                                Some((resource_name, b4)) => {
                                    match <Vec<ConfigEntry> as ProtocolDeserializable>::parse(b4) {
                                        None => None,
                                        Some((config_entries, b5)) => {
                                            Some((ResourceModel { error_code, error_message, resource_type, resource_name, config_entries }, b5))
                                        },
                                    }
                                },
                            }
                        },
                    }
                },
            }
        },
    }
}

pub fn deserialize_resource(b: &[u8], pos: usize) -> (r: Result<(Resource, usize), DeserializeError>)
    requires
        pos <= b@.len(),
    ensures
        read_as(r, b@, pos as int, parse_resource(from_pos(b@, pos as int)), |v: Resource| v.deep_view()),
{
    let r1 = <i16 as ProtocolDeserializable>::read_from(b, pos);
    let (error_code, p1) = match r1 {
        Ok(x) => x,
        Err(e) => return Err(e),
    };
    let r2 = <Option<String> as ProtocolDeserializable>::read_from(b, p1);
    let (error_message, p2) = match r2 {
        Ok(x) => x,
        Err(e) => return Err(e),
    };
    let r3 = <i8 as ProtocolDeserializable>::read_from(b, p2);
    let (resource_type, p3) = match r3 {
        Ok(x) => x,
        Err(e) => return Err(e),
    };
    let r4 = <String as ProtocolDeserializable>::read_from(b, p3);
    let (resource_name, p4) = match r4 {
        Ok(x) => x,
        Err(e) => return Err(e),
    };
    let r5 = <Vec<ConfigEntry> as ProtocolDeserializable>::read_from(b, p4);
    let (config_entries, p5) = match r5 {
        Ok(x) => x,
        Err(e) => return Err(e),
    };
    Ok((Resource { error_code, error_message, resource_type, resource_name, config_entries }, p5))
}

impl ProtocolDeserializable for Resource {
    open spec fn parse(b: Seq<u8>) -> Option<(ResourceModel, Seq<u8>)> {
        parse_resource(b)
    }

    fn read_from(b: &[u8], pos: usize) -> (r: Result<(Resource, usize), DeserializeError>) {
        deserialize_resource(b, pos)
    }
}

impl Duplicate for Resource {
    fn duplicate(&self) -> (r: Resource) {
        Resource {
            error_code: self.error_code.duplicate(),
            error_message: self.error_message.duplicate(),
            resource_type: self.resource_type.duplicate(),
            resource_name: self.resource_name.duplicate(),
            config_entries: self.config_entries.duplicate(),
        }
    }
}

/// One configuration entry.
#[derive(Debug)]
pub struct ConfigEntry {
    pub config_name: String,
    pub config_value: Option<String>,
    pub read_only: bool,
    pub config_source: i8,
    pub is_sensitive: bool,
    pub config_synonyms: Vec<ConfigSynonym>,
}

/// What `ConfigEntry` holds, as plain values.
pub struct ConfigEntryModel {
    pub config_name: Seq<char>,
    pub config_value: Option<Seq<char>>,
    pub read_only: bool,
    pub config_source: i8,
    pub is_sensitive: bool,
    pub config_synonyms: Seq<ConfigSynonymModel>,
}

impl DeepView for ConfigEntry {
    type V = ConfigEntryModel;

    open spec fn deep_view(&self) -> ConfigEntryModel {
        ConfigEntryModel {
            config_name: self.config_name.deep_view(),
            config_value: self.config_value.deep_view(),
            read_only: self.read_only.deep_view(),
            config_source: self.config_source.deep_view(),
            is_sensitive: self.is_sensitive.deep_view(),
            config_synonyms: self.config_synonyms.deep_view(),
        }
    }
}

pub open spec fn parse_config_entry(b0: Seq<u8>) -> Option<(ConfigEntryModel, Seq<u8>)> {
    match <String as ProtocolDeserializable>::parse(b0) {
        None => None,
        Some((config_name, b1)) => {
            match <Option<String> as ProtocolDeserializable>::parse(b1) {
                None => None,
                Some((config_value, b2)) => {
                    match <bool as ProtocolDeserializable>::parse(b2) {
                        None => None,
                        Some((read_only, b3)) => {
                            match <i8 as ProtocolDeserializable>::parse(b3) {
                                None => None,
                                Some((config_source, b4)) => {
                                    match <bool as ProtocolDeserializable>::parse(b4) {
                                        None => None,
                                        Some((is_sensitive, b5)) => {
                                            match <Vec<ConfigSynonym> as ProtocolDeserializable>::parse(b5) {
                                                None => None,
                                                Some((config_synonyms, b6)) => {
                                                    Some((ConfigEntryModel { config_name, config_value, read_only, config_source, is_sensitive, config_synonyms }, b6))
                                                },
                                            }
                                        },
                                    }
                                },
                            }
                        },
                    }
                },
            }
        },
    }
}

pub fn deserialize_config_entry(b: &[u8], pos: usize) -> (r: Result<(ConfigEntry, usize), DeserializeError>)
    requires
        pos <= b@.len(),
    ensures
        read_as(r, b@, pos as int, parse_config_entry(from_pos(b@, pos as int)), |v: ConfigEntry| v.deep_view()),
{
    let r1 = <String as ProtocolDeserializable>::read_from(b, pos);
    let (config_name, p1) = match r1 {
        Ok(x) => x,
        Err(e) => return Err(e),
    };
    let r2 = <Option<String> as ProtocolDeserializable>::read_from(b, p1);
    let (config_value, p2) = match r2 {
        Ok(x) => x,
        Err(e) => return Err(e),
    };
    let r3 = <bool as ProtocolDeserializable>::read_from(b, p2);
    let (read_only, p3) = match r3 {
        Ok(x) => x,
        Err(e) => return Err(e),
    };
    let r4 = <i8 as ProtocolDeserializable>::read_from(b, p3);
    let (config_source, p4) = match r4 {
        Ok(x) => x,
        Err(e) => return Err(e),
    };
    let r5 = <bool as ProtocolDeserializable>::read_from(b, p4);
    let (is_sensitive, p5) = match r5 {
        Ok(x) => x,
        Err(e) => return Err(e),
    };
    let r6 = <Vec<ConfigSynonym> as ProtocolDeserializable>::read_from(b, p5);
    let (config_synonyms, p6) = match r6 {
        Ok(x) => x,
        Err(e) => return Err(e),
    };
    Ok((ConfigEntry { config_name, config_value, read_only, config_source, is_sensitive, config_synonyms }, p6))
}

impl ProtocolDeserializable for ConfigEntry {
    open spec fn parse(b: Seq<u8>) -> Option<(ConfigEntryModel, Seq<u8>)> {
        parse_config_entry(b)
    }

    fn read_from(b: &[u8], pos: usize) -> (r: Result<(ConfigEntry, usize), DeserializeError>) {
        deserialize_config_entry(b, pos)
    }
}

impl Duplicate for ConfigEntry {
    fn duplicate(&self) -> (r: ConfigEntry) {
        ConfigEntry {
            config_name: self.config_name.duplicate(),
            config_value: self.config_value.duplicate(),
            read_only: self.read_only.duplicate(),
            config_source: self.config_source.duplicate(),
            is_sensitive: self.is_sensitive.duplicate(),
            config_synonyms: self.config_synonyms.duplicate(),
        }
    }
}

/// Another source of the same entry.
#[derive(Debug)]
pub struct ConfigSynonym {
    pub config_name: String,
    pub config_value: Option<String>,
    pub config_source: i8,
}

/// What `ConfigSynonym` holds, as plain values.
pub struct ConfigSynonymModel {
    pub config_name: Seq<char>,
    pub config_value: Option<Seq<char>>,
    pub config_source: i8,
}

impl DeepView for ConfigSynonym {
    type V = ConfigSynonymModel;

    open spec fn deep_view(&self) -> ConfigSynonymModel {
        ConfigSynonymModel {
            config_name: self.config_name.deep_view(),
            config_value: self.config_value.deep_view(),
            config_source: self.config_source.deep_view(),
        }
    }
}

pub open spec fn parse_config_synonym(b0: Seq<u8>) -> Option<(ConfigSynonymModel, Seq<u8>)> {
    match <String as ProtocolDeserializable>::parse(b0) {
        None => None,
        Some((config_name, b1)) => {
            match <Option<String> as ProtocolDeserializable>::parse(b1) {
                None => None,
                Some((config_value, b2)) => {
                    match <i8 as ProtocolDeserializable>::parse(b2) {
                        None => None,
                        Some((config_source, b3)) => {
                            Some((ConfigSynonymModel { config_name, config_value, config_source }, b3))
                        },
                    }
                },
            }
        },
    }
}

pub fn deserialize_config_synonym(b: &[u8], pos: usize) -> (r: Result<(ConfigSynonym, usize), DeserializeError>)
    requires
        pos <= b@.len(),
    ensures
        read_as(r, b@, pos as int, parse_config_synonym(from_pos(b@, pos as int)), |v: ConfigSynonym| v.deep_view()),
{
    let r1 = <String as ProtocolDeserializable>::read_from(b, pos);
    let (config_name, p1) = match r1 {
        Ok(x) => x,
        Err(e) => return Err(e),
    };
    let r2 = <Option<String> as ProtocolDeserializable>::read_from(b, p1);
    let (config_value, p2) = match r2 {
        Ok(x) => x,
        Err(e) => return Err(e),
    };
    let r3 = <i8 as ProtocolDeserializable>::read_from(b, p2);
    let (config_source, p3) = match r3 {
        Ok(x) => x,
        Err(e) => return Err(e),
    };
    Ok((ConfigSynonym { config_name, config_value, config_source }, p3))
}

impl ProtocolDeserializable for ConfigSynonym {
    open spec fn parse(b: Seq<u8>) -> Option<(ConfigSynonymModel, Seq<u8>)> {
        parse_config_synonym(b)
    }

    fn read_from(b: &[u8], pos: usize) -> (r: Result<(ConfigSynonym, usize), DeserializeError>) {
        deserialize_config_synonym(b, pos)
    }
}

impl Duplicate for ConfigSynonym {
    fn duplicate(&self) -> (r: ConfigSynonym) {
        ConfigSynonym {
            config_name: self.config_name.duplicate(),
            config_value: self.config_value.duplicate(),
            config_source: self.config_source.duplicate(),
        }
    }
}

/// Where a configuration value comes from.
#[derive(Clone, Copy, Debug, PartialEq, Eq)]
pub enum ConfigSource {
    UnknownConfig,
    TopicConfig,
    DynamicBrokerConfig,
    DynamicDefaultBrokerConfig,
    StaticBrokerConfig,
    DefaultConfig,
}

impl ConfigSource {
    pub open spec fn spec_code(self) -> i8 {
        match self {
            ConfigSource::UnknownConfig => 0,
            ConfigSource::TopicConfig => 1,
            ConfigSource::DynamicBrokerConfig => 2,
            ConfigSource::DynamicDefaultBrokerConfig => 3,
            ConfigSource::StaticBrokerConfig => 4,
            ConfigSource::DefaultConfig => 5,
        }
    }

    /// The code of this source on the wire.
    pub fn code(&self) -> (r: i8)
        ensures
            r == self.spec_code(),
    {
        match self {
            ConfigSource::UnknownConfig => 0,
            ConfigSource::TopicConfig => 1,
            ConfigSource::DynamicBrokerConfig => 2,
            ConfigSource::DynamicDefaultBrokerConfig => 3,
            ConfigSource::StaticBrokerConfig => 4,
            ConfigSource::DefaultConfig => 5,
        }
    }
}

} // verus!
