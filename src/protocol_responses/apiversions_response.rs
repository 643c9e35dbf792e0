//! ApiVersions response, version 0: the API versions a broker serves.
use crate::codec::DeserializeError;
use crate::codec::Duplicate;
use crate::codec::ProtocolDeserializable;
use crate::codec::from_pos;
use crate::codec::read_as;
use vstd::prelude::*;

verus! {

/// ApiVersions, version 0.
#[derive(Debug)]
pub struct ApiVersionResponse {
    pub error_code: i16,
    pub api_versions: Vec<ApiVersion>,
}

/// What `ApiVersionResponse` holds, as plain values.
pub struct ApiVersionResponseModel {
    pub error_code: i16,
    pub api_versions: Seq<ApiVersionModel>,
}

impl DeepView for ApiVersionResponse {
    type V = ApiVersionResponseModel;

    open spec fn deep_view(&self) -> ApiVersionResponseModel {
        ApiVersionResponseModel {
            error_code: self.error_code.deep_view(),
            api_versions: self.api_versions.deep_view(),
        }
    }
}

pub open spec fn parse_api_version_response(b0: Seq<u8>) -> Option<(ApiVersionResponseModel, Seq<u8>)> {
    match <i16 as ProtocolDeserializable>::parse(b0) {
        None => None,
        Some((error_code, b1)) => {
            match <Vec<ApiVersion> as ProtocolDeserializable>::parse(b1) {
                None => None,
                Some((api_versions, b2)) => {
                    Some((ApiVersionResponseModel { error_code, api_versions }, b2))
                },
            }
        },
    }
}

pub fn deserialize_api_version_response(b: &[u8], pos: usize) -> (r: Result<(ApiVersionResponse, usize), DeserializeError>)
    requires
        pos <= b@.len(),
    ensures
        read_as(r, b@, pos as int, parse_api_version_response(from_pos(b@, pos as int)), |v: ApiVersionResponse| v.deep_view()),
{
    let r1 = <i16 as ProtocolDeserializable>::read_from(b, pos);
    let (error_code, p1) = match r1 {
        Ok(x) => x,
        Err(e) => return Err(e),
    };
    let r2 = <Vec<ApiVersion> as ProtocolDeserializable>::read_from(b, p1);
    let (api_versions, p2) = match r2 {
        Ok(x) => x,
        Err(e) => return Err(e),
    };
    Ok((ApiVersionResponse { error_code, api_versions }, p2))
}

impl ProtocolDeserializable for ApiVersionResponse {
    open spec fn parse(b: Seq<u8>) -> Option<(ApiVersionResponseModel, Seq<u8>)> {
        parse_api_version_response(b)
    }

    fn read_from(b: &[u8], pos: usize) -> (r: Result<(ApiVersionResponse, usize), DeserializeError>) {
        deserialize_api_version_response(b, pos)
    }
}

impl Duplicate for ApiVersionResponse {
    fn duplicate(&self) -> (r: ApiVersionResponse) {
        ApiVersionResponse {
            error_code: self.error_code.duplicate(),
            api_versions: self.api_versions.duplicate(),
        }
    }
}

/// One API and the range of versions the broker serves of it.
#[derive(Debug)]
pub struct ApiVersion {
    pub api_key: i16,
    pub min_version: i16,
    pub max_version: i16,
}

/// What `ApiVersion` holds, as plain values.
pub struct ApiVersionModel {
    pub api_key: i16,
    pub min_version: i16,
    pub max_version: i16,
}

impl DeepView for ApiVersion {
    type V = ApiVersionModel;

    open spec fn deep_view(&self) -> ApiVersionModel {
        ApiVersionModel {
            api_key: self.api_key.deep_view(),
            min_version: self.min_version.deep_view(),
            max_version: self.max_version.deep_view(),
        }
    }
}

pub open spec fn parse_api_version(b0: Seq<u8>) -> Option<(ApiVersionModel, Seq<u8>)> {
    match <i16 as ProtocolDeserializable>::parse(b0) {
        None => None,
        Some((api_key, b1)) => {
            match <i16 as ProtocolDeserializable>::parse(b1) {
                None => None,
                Some((min_version, b2)) => {
                    match <i16 as ProtocolDeserializable>::parse(b2) {
                        None => None,
                        Some((max_version, b3)) => {
                            Some((ApiVersionModel { api_key, min_version, max_version }, b3))
                        },
                    }
                },
            }
        },
    }
}

pub fn deserialize_api_version(b: &[u8], pos: usize) -> (r: Result<(ApiVersion, usize), DeserializeError>)
    requires
        pos <= b@.len(),
    ensures
        read_as(r, b@, pos as int, parse_api_version(from_pos(b@, pos as int)), |v: ApiVersion| v.deep_view()),
{
    let r1 = <i16 as ProtocolDeserializable>::read_from(b, pos);
    let (api_key, p1) = match r1 {
        Ok(x) => x,
        Err(e) => return Err(e),
    };
    let r2 = <i16 as ProtocolDeserializable>::read_from(b, p1);
    let (min_version, p2) = match r2 {
        Ok(x) => x,
        Err(e) => return Err(e),
    };
    let r3 = <i16 as ProtocolDeserializable>::read_from(b, p2);
    let (max_version, p3) = match r3 {
        Ok(x) => x,
        Err(e) => return Err(e),
    };
    Ok((ApiVersion { api_key, min_version, max_version }, p3))
}

impl ProtocolDeserializable for ApiVersion {
    open spec fn parse(b: Seq<u8>) -> Option<(ApiVersionModel, Seq<u8>)> {
        parse_api_version(b)
    }

    fn read_from(b: &[u8], pos: usize) -> (r: Result<(ApiVersion, usize), DeserializeError>) {
        deserialize_api_version(b, pos)
    }
}

impl Duplicate for ApiVersion {
    fn duplicate(&self) -> (r: ApiVersion) {
        ApiVersion {
            api_key: self.api_key.duplicate(),
            min_version: self.min_version.duplicate(),
            max_version: self.max_version.duplicate(),
        }
    }
}

} // verus!
