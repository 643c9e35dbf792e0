//! The response envelope: a correlation id, then the body of the API that
//! was asked, with no byte left over.
use crate::codec::DeserializeError;
use crate::codec::ProtocolDeserializable;
use crate::codec::de_i32;
use crate::codec::from_pos;
use crate::codec::parse_i32;
use vstd::prelude::*;

verus! {

/// Header information for a response.
#[derive(Debug)]
pub struct ResponseHeader {
    pub correlation_id: i32,
}

/// A response read from a broker.
#[derive(Debug)]
pub struct Response<T> {
    pub header: ResponseHeader,
    pub response_message: T,
}

/// The correlation id and the body that `b` holds, where the body takes up
/// every byte after the id.
pub open spec fn parse_response<T: ProtocolDeserializable>(b: Seq<u8>) -> Option<
    (i32, <T as DeepView>::V),
> {
    match parse_i32(b) {
        None => None,
        Some((c, rest)) => match T::parse(rest) {
            Some((m, left)) => if left.len() == 0 {
                Some((c, m))
            } else {
                None
            },
            None => None,
        },
    }
}

/// Reads a response whose body is a `T`. Leftover bytes are an error.
pub fn into_protocol_type<T: ProtocolDeserializable>(bytes: &[u8]) -> (r: Result<
    Response<T>,
    DeserializeError,
>)
    ensures
        match r {
            Ok(resp) => parse_response::<T>(bytes@) == Some(
                (resp.header.correlation_id, resp.response_message.deep_view()),
            ),
            Err(_) => parse_response::<T>(bytes@) is None,
        },
{
    assert(from_pos(bytes@, 0) =~= bytes@);
    let rh = de_i32(bytes, 0);
    let (correlation_id, pos) = match rh {
        Ok(x) => x,
        Err(e) => return Err(e),
    };
    let rb = T::read_from(bytes, pos);
    let (response_message, end) = match rb {
        Ok(x) => x,
        Err(e) => return Err(e),
    };
    if end != bytes.len() {
        return Err(
            DeserializeError::of(String::from_str("Unexpected bytes after the response body")),
        );
    }
    Ok(Response { header: ResponseHeader { correlation_id }, response_message })
}

} // verus!
