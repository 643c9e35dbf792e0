//! The request envelope: a header, a body, and the total length in front.
use crate::codec::ProtocolSerializable;
use crate::codec::encode_i16;
use crate::codec::encode_i32;
use crate::codec::encode_string;
use crate::codec::i16_bytes;
use crate::codec::i32_bytes;
use crate::codec::string_wire;
use crate::codec::parse_i32;
use vstd::prelude::*;

verus! {

/// A message bound to one broker API at one version.
pub trait KafkaApiVersioned {
    spec fn spec_api_key() -> i16;

    spec fn spec_version() -> i16;

    fn api_key() -> (r: i16)
        ensures
            r == Self::spec_api_key(),
    ;

    fn version() -> (r: i16)
        ensures
            r == Self::spec_version(),
    ;
}

/// The correlation id of every request. It can stay fixed because each
/// request has a connection of its own.
pub const CORRELATION_ID: i32 = 42;

/// Header information for a request.
#[derive(Debug)]
pub struct RequestHeader {
    pub api_key: i16,
    pub api_version: i16,
    pub correlation_id: i32,
    pub client_id: String,
}

impl ProtocolSerializable for RequestHeader {
    open spec fn wire(&self) -> Seq<u8> {
        i16_bytes(self.api_key) + i16_bytes(self.api_version) + i32_bytes(self.correlation_id)
            + string_wire(self.client_id@)
    }

    fn into_protocol_bytes(&self) -> (r: Vec<u8>) {
        let mut r = encode_i16(self.api_key);
        let mut v = encode_i16(self.api_version);
        r.append(&mut v);
        let mut c = encode_i32(self.correlation_id);
        r.append(&mut c);
        let mut id = encode_string(&self.client_id);
        r.append(&mut id);
        r
    }
}

/// A request that can be sent to a broker.
#[derive(Debug)]
pub struct Request<T: ProtocolSerializable> {
    pub header: RequestHeader,
    pub request_message: T,
}

impl<A: ProtocolSerializable + KafkaApiVersioned> Request<A> {
    pub fn of(request_message: A) -> (r: Request<A>)
        ensures
            r.header.api_key == A::spec_api_key(),
            r.header.api_version == A::spec_version(),
            r.header.correlation_id == CORRELATION_ID,
            r.header.client_id@ == seq!['t', 'o', 'p', 'i', 'k', 's'],
            r.request_message == request_message,
    {
        let client_id = String::from_str("topiks");
        proof {
            reveal_strlit("topiks");
        }
        Request {
            header: RequestHeader {
                api_key: A::api_key(),
                api_version: A::version(),
                correlation_id: CORRELATION_ID,
                client_id,
            },
            request_message,
        }
    }
}

/// The header and body bytes of a request, without the length in front.
pub open spec fn request_payload<T: ProtocolSerializable>(r: &Request<T>) -> Seq<u8> {
    r.header.wire() + r.request_message.wire()
}

impl<T: ProtocolSerializable> ProtocolSerializable for Request<T> {
    open spec fn wire(&self) -> Seq<u8> {
        i32_bytes(request_payload(self).len() as i32) + request_payload(self)
    }

    fn into_protocol_bytes(&self) -> (r: Vec<u8>) {
        let mut payload = self.header.into_protocol_bytes();
        let mut body = self.request_message.into_protocol_bytes();
        payload.append(&mut body);
        let mut r = encode_i32(payload.len() as i32);
        r.append(&mut payload);
        r
    }
}

/// The length in front of an encoded request counts exactly the bytes after
/// it, whatever the message type, wherever that count fits the prefix.
pub proof fn lemma_request_length_prefix<T: ProtocolSerializable>(r: &Request<T>)
    requires
        request_payload(r).len() <= i32::MAX,
    ensures
        r.wire().len() >= 4,
        parse_i32(r.wire()) == Some(
            ((r.wire().len() - 4) as i32, r.wire().subrange(4, r.wire().len() as int)),
        ),
        parse_i32(r.wire()).unwrap().0 as int == r.wire().len() - 4,
{
    let p = request_payload(r);
    crate::codec::lemma_i32_round_trip(p.len() as i32);
    let w = r.wire();
    let e = i32_bytes(p.len() as i32);
    assert(w[0] == e[0] && w[1] == e[1] && w[2] == e[2] && w[3] == e[3]);
    assert(w.skip(4) =~= w.subrange(4, w.len() as int));
}

} // verus!
