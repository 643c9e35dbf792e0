//! Primitive wire codec: big-endian integers, booleans, length-prefixed
//! nullable strings and count-prefixed sequences.
use vstd::prelude::*;
use vstd::slice::slice_subrange;
use vstd::slice::slice_to_vec;
use vstd::utf8::decode_utf8;
use vstd::utf8::encode_utf8;
use vstd::utf8::encode_utf8_decode_utf8;
use vstd::utf8::encode_utf8_valid_utf8;
use vstd::utf8::valid_utf8;

verus! {

// ---------------------------------------------------------------------------
// Byte layouts
// ---------------------------------------------------------------------------

pub open spec fn i8_bytes(v: i8) -> Seq<u8> {
    seq![v as u8]
}

pub open spec fn i16_bytes(v: i16) -> Seq<u8> {
    let u = v as u16;
    seq![(u >> 8u16) as u8, u as u8]
}

pub open spec fn i32_bytes(v: i32) -> Seq<u8> {
    let u = v as u32;
    seq![(u >> 24u32) as u8, (u >> 16u32) as u8, (u >> 8u32) as u8, u as u8]
}

pub open spec fn i64_bytes(v: i64) -> Seq<u8> {
    let u = v as u64;
    seq![
        (u >> 56u64) as u8,
        (u >> 48u64) as u8,
        (u >> 40u64) as u8,
        (u >> 32u64) as u8,
        (u >> 24u64) as u8,
        (u >> 16u64) as u8,
        (u >> 8u64) as u8,
        u as u8,
    ]
}

pub open spec fn bool_bytes(b: bool) -> Seq<u8> {
    seq![if b { 1u8 } else { 0u8 }]
}

pub open spec fn be_i16(b0: u8, b1: u8) -> i16 {
    (((b0 as u16) << 8u16) | (b1 as u16)) as i16
}

pub open spec fn be_i32(b0: u8, b1: u8, b2: u8, b3: u8) -> i32 {
    (((b0 as u32) << 24u32) | ((b1 as u32) << 16u32) | ((b2 as u32) << 8u32) | (b3 as u32)) as i32
}

pub open spec fn be_u32(b0: u8, b1: u8, b2: u8, b3: u8) -> u64 {
    (((b0 as u64) << 24u64) | ((b1 as u64) << 16u64) | ((b2 as u64) << 8u64) | (b3 as u64))
}

pub open spec fn be_i64(b: Seq<u8>) -> i64 {
    (((be_u32(b[0], b[1], b[2], b[3])) << 32u64) | be_u32(b[4], b[5], b[6], b[7])) as i64
}

/// A string on the wire: a signed 16-bit byte count, then the UTF-8 bytes.
pub open spec fn string_wire(s: Seq<char>) -> Seq<u8> {
    i16_bytes(encode_utf8(s).len() as i16) + encode_utf8(s)
}

/// A nullable string: `None` is the count -1 with no bytes after it.
pub open spec fn nullable_string_wire(s: Option<Seq<char>>) -> Seq<u8> {
    match s {
        Some(s) => string_wire(s),
        None => i16_bytes(-1i16),
    }
}

/// A string fits its 16-bit length prefix.
pub open spec fn fits_i16(s: Seq<char>) -> bool {
    encode_utf8(s).len() <= i16::MAX
}

// ---------------------------------------------------------------------------
// Parsers over byte sequences: the value and the bytes left after it
// ---------------------------------------------------------------------------

pub open spec fn parse_i8(b: Seq<u8>) -> Option<(i8, Seq<u8>)> {
    if b.len() < 1 {
        None
    } else {
        Some((b[0] as i8, b.skip(1)))
    }
}

pub open spec fn parse_i16(b: Seq<u8>) -> Option<(i16, Seq<u8>)> {
    if b.len() < 2 {
        None
    } else {
        Some((be_i16(b[0], b[1]), b.skip(2)))
    }
}

pub open spec fn parse_i32(b: Seq<u8>) -> Option<(i32, Seq<u8>)> {
    if b.len() < 4 {
        None
    } else {
        Some((be_i32(b[0], b[1], b[2], b[3]), b.skip(4)))
    }
}

pub open spec fn parse_i64(b: Seq<u8>) -> Option<(i64, Seq<u8>)> {
    if b.len() < 8 {
        None
    } else {
        Some((be_i64(b), b.skip(8)))
    }
}

/// A boolean is one byte; the byte 1 reads as true, any other as false.
pub open spec fn parse_bool(b: Seq<u8>) -> Option<(bool, Seq<u8>)> {
    if b.len() < 1 {
        None
    } else {
        Some((b[0] == 1, b.skip(1)))
    }
}

/// A nullable string. The count -1 is null; another negative count, too few
/// bytes or bytes that are not UTF-8 are errors.
pub open spec fn parse_nullable_string(b: Seq<u8>) -> Option<(Option<Seq<char>>, Seq<u8>)> {
    if b.len() < 2 {
        None
    } else {
        let n = be_i16(b[0], b[1]) as int;
        if n == -1 {
            Some((None, b.skip(2)))
        } else if n < 0 || b.len() < 2 + n {
            None
        } else if !valid_utf8(b.subrange(2, 2 + n)) {
            None
        } else {
            Some((Some(decode_utf8(b.subrange(2, 2 + n))), b.skip(2 + n)))
        }
    }
}

/// A string that must not be null.
pub open spec fn parse_string(b: Seq<u8>) -> Option<(Seq<char>, Seq<u8>)> {
    match parse_nullable_string(b) {
        Some((Some(s), rest)) => Some((s, rest)),
        _ => None,
    }
}

/// The element count of a sequence: a non-positive count means no elements.
pub open spec fn array_count(b: Seq<u8>) -> Option<(nat, Seq<u8>)> {
    match parse_i32(b) {
        Some((c, rest)) => Some((if c <= 0 { 0nat } else { c as nat }, rest)),
        None => None,
    }
}

// ---------------------------------------------------------------------------
// Errors
// ---------------------------------------------------------------------------

/// Malformed or insufficient bytes.
#[derive(Debug)]
pub struct DeserializeError {
    pub error: String,
}

impl DeserializeError {
    pub fn of(error: String) -> (r: DeserializeError)
        ensures
            r.error@ == error@,
    {
        DeserializeError { error }
    }
}

fn too_short() -> DeserializeError {
    DeserializeError::of(String::from_str("Not enough bytes to deserialize"))
}

// ---------------------------------------------------------------------------
// Round trips of the fixed-width values
// ---------------------------------------------------------------------------

/// The two bytes of a 16-bit integer read back as it.
pub proof fn lemma_i16_round_trip(v: i16)
    ensures
        be_i16(i16_bytes(v)[0], i16_bytes(v)[1]) == v,
{
    let u = v as u16;
    assert(((((u >> 8u16) as u8) as u16) << 8u16 | ((u as u8) as u16)) == u) by (bit_vector);
    assert((u as i16) == v) by (bit_vector)
        requires
            u == v as u16,
    ;
}

/// The four bytes of a 32-bit integer read back as it.
pub proof fn lemma_i32_round_trip(v: i32)
    ensures
        be_i32(i32_bytes(v)[0], i32_bytes(v)[1], i32_bytes(v)[2], i32_bytes(v)[3]) == v,
{
    let u = v as u32;
    assert(((((u >> 24u32) as u8) as u32) << 24u32 | ((((u >> 16u32) as u8) as u32) << 16u32) | ((((
    u >> 8u32) as u8) as u32) << 8u32) | ((u as u8) as u32)) == u) by (bit_vector);
    assert((u as i32) == v) by (bit_vector)
        requires
            u == v as u32,
    ;
}

/// The eight bytes of a 64-bit integer read back as it.
pub proof fn lemma_i64_round_trip(v: i64)
    ensures
        be_i64(i64_bytes(v)) == v,
{
    let u = v as u64;
    let b = i64_bytes(v);
    let hi = be_u32(b[0], b[1], b[2], b[3]);
    let lo = be_u32(b[4], b[5], b[6], b[7]);
    assert(hi == ((((((u >> 56u64) as u8) as u64) << 24u64) | ((((u >> 48u64) as u8) as u64)
        << 16u64) | ((((u >> 40u64) as u8) as u64) << 8u64) | (((u >> 32u64) as u8) as u64))));
    assert(lo == ((((((u >> 24u64) as u8) as u64) << 24u64) | ((((u >> 16u64) as u8) as u64)
        << 16u64) | ((((u >> 8u64) as u8) as u64) << 8u64) | ((u as u8) as u64))));
    assert((((((((u >> 56u64) as u8) as u64) << 24u64) | ((((u >> 48u64) as u8) as u64)
        << 16u64) | ((((u >> 40u64) as u8) as u64) << 8u64) | (((u >> 32u64) as u8) as u64)))
        << 32u64) | (((((u >> 24u64) as u8) as u64) << 24u64) | ((((u >> 16u64) as u8) as u64)
        << 16u64) | ((((u >> 8u64) as u8) as u64) << 8u64) | ((u as u8) as u64)) == u)
        by (bit_vector);
    assert((u as i64) == v) by (bit_vector)
        requires
            u == v as u64,
    ;
}

/// The byte of an 8-bit integer reads back as it.
pub proof fn lemma_i8_round_trip(v: i8)
    ensures
        (i8_bytes(v)[0] as i8) == v,
{
    assert(((v as u8) as i8) == v) by (bit_vector);
}

// ---------------------------------------------------------------------------
// Encoders
// ---------------------------------------------------------------------------

pub fn encode_i8(v: i8) -> (r: Vec<u8>)
    ensures
        r@ == i8_bytes(v),
{
    let r = vec![v as u8];
    assert(r@ =~= i8_bytes(v));
    r
}

pub fn encode_i16(v: i16) -> (r: Vec<u8>)
    ensures
        r@ == i16_bytes(v),
{
    let u = v as u16;
    let r = vec![(u >> 8u16) as u8, u as u8];
    assert(r@ =~= i16_bytes(v));
    r
}

pub fn encode_i32(v: i32) -> (r: Vec<u8>)
    ensures
        r@ == i32_bytes(v),
{
    let u = v as u32;
    let r = vec![(u >> 24u32) as u8, (u >> 16u32) as u8, (u >> 8u32) as u8, u as u8];
    assert(r@ =~= i32_bytes(v));
    r
}

pub fn encode_i64(v: i64) -> (r: Vec<u8>)
    ensures
        r@ == i64_bytes(v),
{
    let u = v as u64;
    let r = vec![
        (u >> 56u64) as u8,
        (u >> 48u64) as u8,
        (u >> 40u64) as u8,
        (u >> 32u64) as u8,
        (u >> 24u64) as u8,
        (u >> 16u64) as u8,
        (u >> 8u64) as u8,
        u as u8,
    ];
    assert(r@ =~= i64_bytes(v));
    r
}

pub fn encode_bool(b: bool) -> (r: Vec<u8>)
    ensures
        r@ == bool_bytes(b),
{
    let r = vec![if b { 1u8 } else { 0u8 }];
    assert(r@ =~= bool_bytes(b));
    r
}

/// Encodes a string: its UTF-8 byte count as a 16-bit integer, then the bytes.
pub fn encode_string(s: &String) -> (r: Vec<u8>)
    ensures
        r@ == string_wire(s@),
{
    let bytes = s.as_str().as_bytes();
    let mut r = encode_i16(bytes.len() as i16);
    let mut tail = slice_to_vec(bytes);
    r.append(&mut tail);
    r
}

pub fn encode_nullable_string(s: &Option<String>) -> (r: Vec<u8>)
    ensures
        r@ == nullable_string_wire(match s {
            Some(s) => Some(s@),
            None => None,
        }),
{
    match s {
        Some(s) => encode_string(s),
        None => encode_i16(-1),
    }
}

// ---------------------------------------------------------------------------
// Decoders. Each reads from `pos` and returns the value and the position
// after it.
// ---------------------------------------------------------------------------

/// The bytes of `b` from `pos` on.
pub open spec fn from_pos(b: Seq<u8>, pos: int) -> Seq<u8> {
    b.subrange(pos, b.len() as int)
}

/// `r` is what parser result `p` says of the bytes of `b` from `pos` on.
pub open spec fn read_as<T, V>(
    r: Result<(T, usize), DeserializeError>,
    b: Seq<u8>,
    pos: int,
    p: Option<(V, Seq<u8>)>,
    model: spec_fn(T) -> V,
) -> bool {
    match r {
        Ok((v, n)) => p is Some && pos <= n <= b.len() && p.unwrap().0 == model(v) && p.unwrap().1
            == from_pos(b, n as int),
        Err(_) => p is None,
    }
}

pub fn de_i8(b: &[u8], pos: usize) -> (r: Result<(i8, usize), DeserializeError>)
    requires
        pos <= b@.len(),
    ensures
        read_as(r, b@, pos as int, parse_i8(from_pos(b@, pos as int)), |v: i8| v),
{
    if b.len() - pos < 1 {
        return Err(too_short());
    }
    assert(from_pos(b@, pos + 1) =~= from_pos(b@, pos as int).skip(1));
    Ok((b[pos] as i8, pos + 1))
}

pub fn de_bool(b: &[u8], pos: usize) -> (r: Result<(bool, usize), DeserializeError>)
    requires
        pos <= b@.len(),
    ensures
        read_as(r, b@, pos as int, parse_bool(from_pos(b@, pos as int)), |v: bool| v),
{
    if b.len() - pos < 1 {
        return Err(too_short());
    }
    assert(from_pos(b@, pos + 1) =~= from_pos(b@, pos as int).skip(1));
    Ok((b[pos] == 1, pos + 1))
}

pub fn de_i16(b: &[u8], pos: usize) -> (r: Result<(i16, usize), DeserializeError>)
    requires
        pos <= b@.len(),
    ensures
        read_as(r, b@, pos as int, parse_i16(from_pos(b@, pos as int)), |v: i16| v),
{
    if b.len() - pos < 2 {
        return Err(too_short());
    }
    assert(from_pos(b@, pos + 2) =~= from_pos(b@, pos as int).skip(2));
    let v = (((b[pos] as u16) << 8u16) | (b[pos + 1] as u16)) as i16;
    Ok((v, pos + 2))
}

pub fn de_i32(b: &[u8], pos: usize) -> (r: Result<(i32, usize), DeserializeError>)
    requires
        pos <= b@.len(),
    ensures
        read_as(r, b@, pos as int, parse_i32(from_pos(b@, pos as int)), |v: i32| v),
{
    if b.len() - pos < 4 {
        return Err(too_short());
    }
    assert(from_pos(b@, pos + 4) =~= from_pos(b@, pos as int).skip(4));
    let v = (((b[pos] as u32) << 24u32) | ((b[pos + 1] as u32) << 16u32) | ((b[pos + 2] as u32)
        << 8u32) | (b[pos + 3] as u32)) as i32;
    Ok((v, pos + 4))
}

pub fn de_i64(b: &[u8], pos: usize) -> (r: Result<(i64, usize), DeserializeError>)
    requires
        pos <= b@.len(),
    ensures
        read_as(r, b@, pos as int, parse_i64(from_pos(b@, pos as int)), |v: i64| v),
{
    if b.len() - pos < 8 {
        return Err(too_short());
    }
    assert(from_pos(b@, pos + 8) =~= from_pos(b@, pos as int).skip(8));
    let hi = ((b[pos] as u64) << 24u64) | ((b[pos + 1] as u64) << 16u64) | ((b[pos + 2] as u64)
        << 8u64) | (b[pos + 3] as u64);
    let lo = ((b[pos + 4] as u64) << 24u64) | ((b[pos + 5] as u64) << 16u64) | ((b[pos + 6] as u64)
        << 8u64) | (b[pos + 7] as u64);
    let v = ((hi << 32u64) | lo) as i64;
    proof {
        let s = from_pos(b@, pos as int);
        assert(s[0] == b@[pos as int] && s[1] == b@[pos + 1] && s[2] == b@[pos + 2] && s[3]
            == b@[pos + 3]);
        assert(s[4] == b@[pos + 4] && s[5] == b@[pos + 5] && s[6] == b@[pos + 6] && s[7]
            == b@[pos + 7]);
    }
    Ok((v, pos + 8))
}

/// Relies on std::str::from_utf8: it accepts exactly the well-formed UTF-8
/// byte sequences, and the string it yields holds the characters they encode.
#[verifier::external_body]
fn utf8_to_string(b: &[u8]) -> (r: Option<String>)
    ensures
        r is Some <==> valid_utf8(b@),
        r is Some ==> r.unwrap()@ == decode_utf8(b@),
{
    match std::str::from_utf8(b) {
        Ok(s) => Some(s.to_string()),
        Err(_) => None,
    }
}

pub open spec fn option_string_model(s: Option<String>) -> Option<Seq<char>> {
    match s {
        Some(s) => Some(s@),
        None => None,
    }
}

pub fn de_string(b: &[u8], pos: usize) -> (r: Result<(Option<String>, usize), DeserializeError>)
    requires
        pos <= b@.len(),
    ensures
        read_as(
            r,
            b@,
            pos as int,
            parse_nullable_string(from_pos(b@, pos as int)),
            |v: Option<String>| option_string_model(v),
        ),
{
    let ghost s = from_pos(b@, pos as int);
    let r16 = de_i16(b, pos);
    let (n, start) = match r16 {
        Ok(x) => x,
        Err(e) => return Err(e),
    };
    assert(r16 is Ok);
    assert(parse_i16(s).unwrap().0 == n);
    assert(from_pos(b@, start as int).len() == s.skip(2).len());
    assert(start == pos + 2 && n == be_i16(s[0], s[1]));
    if n == -1 {
        assert(from_pos(b@, start as int) =~= s.skip(2));
        return Ok((None, start));
    }
    if n < 0 {
        return Err(DeserializeError::of(String::from_str("Negative string length")));
    }
    let ghost ni = n as int;
    let n = n as usize;
    assert(n == ni);
    if b.len() - start < n {
        return Err(too_short());
    }
    let end = start + n;
    let bytes = slice_subrange(b, start, end);
    assert(bytes@ =~= s.subrange(2, 2 + n));
    assert(from_pos(b@, end as int) =~= s.skip(2 + n));
    match utf8_to_string(bytes) {
        Some(text) => Ok((Some(text), end)),
        None => Err(DeserializeError::of(String::from_str("Failed to deserialize string"))),
    }
}

pub fn de_required_string(b: &[u8], pos: usize) -> (r: Result<(String, usize), DeserializeError>)
    requires
        pos <= b@.len(),
    ensures
        read_as(r, b@, pos as int, parse_string(from_pos(b@, pos as int)), |v: String| v@),
{
    match de_string(b, pos) {
        Ok((Some(s), n)) => Ok((s, n)),
        Ok((None, _)) => Err(DeserializeError::of(String::from_str("Unexpected null string"))),
        Err(e) => Err(e),
    }
}

// ---------------------------------------------------------------------------
// Values that can be written on the wire
// ---------------------------------------------------------------------------

/// A value that can be sent to a broker. Encoding never fails.
pub trait ProtocolSerializable {
    /// The bytes that encode this value.
    spec fn wire(&self) -> Seq<u8>;

    fn into_protocol_bytes(&self) -> (r: Vec<u8>)
        ensures
            r@ == self.wire(),
    ;
}

/// Primitive values of the protocol.
#[derive(Clone, Copy, Debug, PartialEq, Eq)]
pub enum ProtocolPrimitives {
    I8(i8),
    I16(i16),
    I32(i32),
    I64(i64),
    Boolean(bool),
}

impl ProtocolPrimitives {
    /// The count that marks a null sequence.
    pub fn null_bytes() -> (r: ProtocolPrimitives)
        ensures
            r == ProtocolPrimitives::I32(-1i32),
    {
        ProtocolPrimitives::I32(-1)
    }

    /// The length that marks a null string.
    pub fn null_string() -> (r: ProtocolPrimitives)
        ensures
            r == ProtocolPrimitives::I16(-1i16),
    {
        ProtocolPrimitives::I16(-1)
    }
}

impl ProtocolSerializable for ProtocolPrimitives {
    open spec fn wire(&self) -> Seq<u8> {
        match *self {
            ProtocolPrimitives::I8(v) => i8_bytes(v),
            ProtocolPrimitives::I16(v) => i16_bytes(v),
            ProtocolPrimitives::I32(v) => i32_bytes(v),
            ProtocolPrimitives::I64(v) => i64_bytes(v),
            ProtocolPrimitives::Boolean(v) => bool_bytes(v),
        }
    }

    fn into_protocol_bytes(&self) -> (r: Vec<u8>) {
        match *self {
            ProtocolPrimitives::I8(v) => encode_i8(v),
            ProtocolPrimitives::I16(v) => encode_i16(v),
            ProtocolPrimitives::I32(v) => encode_i32(v),
            ProtocolPrimitives::I64(v) => encode_i64(v),
            ProtocolPrimitives::Boolean(v) => encode_bool(v),
        }
    }
}

impl ProtocolSerializable for i8 {
    open spec fn wire(&self) -> Seq<u8> {
        i8_bytes(*self)
    }

    fn into_protocol_bytes(&self) -> (r: Vec<u8>) {
        encode_i8(*self)
    }
}

impl ProtocolSerializable for i16 {
    open spec fn wire(&self) -> Seq<u8> {
        i16_bytes(*self)
    }

    fn into_protocol_bytes(&self) -> (r: Vec<u8>) {
        encode_i16(*self)
    }
}

impl ProtocolSerializable for i32 {
    open spec fn wire(&self) -> Seq<u8> {
        i32_bytes(*self)
    }

    fn into_protocol_bytes(&self) -> (r: Vec<u8>) {
        encode_i32(*self)
    }
}

impl ProtocolSerializable for i64 {
    open spec fn wire(&self) -> Seq<u8> {
        i64_bytes(*self)
    }

    fn into_protocol_bytes(&self) -> (r: Vec<u8>) {
        encode_i64(*self)
    }
}

impl ProtocolSerializable for bool {
    open spec fn wire(&self) -> Seq<u8> {
        bool_bytes(*self)
    }

    fn into_protocol_bytes(&self) -> (r: Vec<u8>) {
        encode_bool(*self)
    }
}

impl ProtocolSerializable for String {
    open spec fn wire(&self) -> Seq<u8> {
        string_wire(self@)
    }

    fn into_protocol_bytes(&self) -> (r: Vec<u8>) {
        encode_string(self)
    }
}

impl ProtocolSerializable for Option<String> {
    open spec fn wire(&self) -> Seq<u8> {
        nullable_string_wire(option_string_model(*self))
    }

    fn into_protocol_bytes(&self) -> (r: Vec<u8>) {
        encode_nullable_string(self)
    }
}

/// The elements' encodings, one after another.
pub open spec fn concat_wire<T: ProtocolSerializable>(s: Seq<T>) -> Seq<u8>
    decreases s.len(),
{
    if s.len() == 0 {
        seq![]
    } else {
        concat_wire(s.drop_last()) + s.last().wire()
    }
}

/// A sequence on the wire: a signed 32-bit count, then the elements.
pub open spec fn array_wire<T: ProtocolSerializable>(s: Seq<T>) -> Seq<u8> {
    i32_bytes(s.len() as i32) + concat_wire(s)
}

impl<T: ProtocolSerializable> ProtocolSerializable for Vec<T> {
    open spec fn wire(&self) -> Seq<u8> {
        array_wire(self@)
    }

    fn into_protocol_bytes(&self) -> (r: Vec<u8>) {
        let mut r = encode_i32(self.len() as i32);
        let mut i: usize = 0;
        while i < self.len()
            invariant
                i <= self@.len(),
                r@ == i32_bytes(self@.len() as i32) + concat_wire(self@.take(i as int)),
            decreases self@.len() - i,
        {
            let mut e = self[i].into_protocol_bytes();
            r.append(&mut e);
            proof {
                assert(self@.take(i + 1).drop_last() =~= self@.take(i as int));
            }
            i = i + 1;
        }
        assert(self@.take(self@.len() as int) =~= self@);
        assert(r@ == array_wire(self@));
        assert(self.wire() == array_wire(self@));
        r
    }
}

/// A nullable sequence: `None` is the count -1 with nothing after it.
impl<T: ProtocolSerializable> ProtocolSerializable for Option<Vec<T>> {
    open spec fn wire(&self) -> Seq<u8> {
        match *self {
            Some(v) => array_wire(v@),
            None => i32_bytes(-1i32),
        }
    }

    fn into_protocol_bytes(&self) -> (r: Vec<u8>) {
        match self {
            Some(v) => v.into_protocol_bytes(),
            None => encode_i32(-1),
        }
    }
}

// ---------------------------------------------------------------------------
// Values that can be read from the wire
// ---------------------------------------------------------------------------

/// A value that can be read from a broker's bytes.
pub trait ProtocolDeserializable: Sized + DeepView {
    /// What the bytes hold: the value read and the bytes after it, or `None`
    /// where they are malformed or too few.
    spec fn parse(b: Seq<u8>) -> Option<(<Self as DeepView>::V, Seq<u8>)>;

    fn read_from(b: &[u8], pos: usize) -> (r: Result<(Self, usize), DeserializeError>)
        requires
            pos <= b@.len(),
        ensures
            read_as(r, b@, pos as int, Self::parse(from_pos(b@, pos as int)), |v: Self| v.deep_view()),
    ;
}

impl ProtocolDeserializable for i8 {
    open spec fn parse(b: Seq<u8>) -> Option<(i8, Seq<u8>)> {
        parse_i8(b)
    }

    fn read_from(b: &[u8], pos: usize) -> (r: Result<(i8, usize), DeserializeError>) {
        de_i8(b, pos)
    }
}

impl ProtocolDeserializable for i16 {
    open spec fn parse(b: Seq<u8>) -> Option<(i16, Seq<u8>)> {
        parse_i16(b)
    }

    fn read_from(b: &[u8], pos: usize) -> (r: Result<(i16, usize), DeserializeError>) {
        de_i16(b, pos)
    }
}

impl ProtocolDeserializable for i32 {
    open spec fn parse(b: Seq<u8>) -> Option<(i32, Seq<u8>)> {
        parse_i32(b)
    }

    fn read_from(b: &[u8], pos: usize) -> (r: Result<(i32, usize), DeserializeError>) {
        de_i32(b, pos)
    }
}

impl ProtocolDeserializable for i64 {
    open spec fn parse(b: Seq<u8>) -> Option<(i64, Seq<u8>)> {
        parse_i64(b)
    }

    fn read_from(b: &[u8], pos: usize) -> (r: Result<(i64, usize), DeserializeError>) {
        de_i64(b, pos)
    }
}

impl ProtocolDeserializable for bool {
    open spec fn parse(b: Seq<u8>) -> Option<(bool, Seq<u8>)> {
        parse_bool(b)
    }

    fn read_from(b: &[u8], pos: usize) -> (r: Result<(bool, usize), DeserializeError>) {
        de_bool(b, pos)
    }
}

impl ProtocolDeserializable for String {
    open spec fn parse(b: Seq<u8>) -> Option<(Seq<char>, Seq<u8>)> {
        parse_string(b)
    }

    fn read_from(b: &[u8], pos: usize) -> (r: Result<(String, usize), DeserializeError>) {
        de_required_string(b, pos)
    }
}

impl ProtocolDeserializable for Option<String> {
    open spec fn parse(b: Seq<u8>) -> Option<(Option<Seq<char>>, Seq<u8>)> {
        parse_nullable_string(b)
    }

    fn read_from(b: &[u8], pos: usize) -> (r: Result<(Option<String>, usize), DeserializeError>) {
        de_string(b, pos)
    }
}

/// `n` elements one after another.
pub open spec fn parse_elems<T: ProtocolDeserializable>(b: Seq<u8>, n: nat) -> Option<
    (Seq<<T as DeepView>::V>, Seq<u8>),
>
    decreases n,
{
    if n == 0 {
        Some((seq![], b))
    } else {
        match T::parse(b) {
            None => None,
            Some((x, r)) => match parse_elems::<T>(r, (n - 1) as nat) {
                None => None,
                Some((xs, r2)) => Some((seq![x] + xs, r2)),
            },
        }
    }
}

/// A count-prefixed sequence.
pub open spec fn parse_array<T: ProtocolDeserializable>(b: Seq<u8>) -> Option<
    (Seq<<T as DeepView>::V>, Seq<u8>),
> {
    match array_count(b) {
        Some((n, rest)) => parse_elems::<T>(rest, n),
        None => None,
    }
}

pub open spec fn prepend<V>(xs: Seq<V>, p: Option<(Seq<V>, Seq<u8>)>) -> Option<(Seq<V>, Seq<u8>)> {
    match p {
        Some((ys, r)) => Some((xs + ys, r)),
        None => None,
    }
}

/// Reads `elements` values of `T` one after another; a count of zero or less
/// reads none.
pub fn de_array_transform<T: ProtocolDeserializable>(b: &[u8], pos: usize, elements: i32) -> (r:
    Result<(Vec<T>, usize), DeserializeError>)
    requires
        pos <= b@.len(),
    ensures
        read_as(
            r,
            b@,
            pos as int,
            parse_elems::<T>(from_pos(b@, pos as int), if elements <= 0 { 0nat } else { elements as nat }),
            |v: Vec<T>| v.deep_view(),
        ),
{
    let count: i32 = if elements < 0 { 0 } else { elements };
    let ghost total = count as nat;
    let mut out: Vec<T> = Vec::new();
    let mut cur = pos;
    let mut i: i32 = 0;
    assert(out.deep_view() =~= seq![]);
    while i < count
        invariant
            0 <= i <= count,
            total == count as nat,
            count == (if elements < 0 { 0 } else { elements }),
            pos <= cur <= b@.len(),
            parse_elems::<T>(from_pos(b@, pos as int), total) == prepend(
                out.deep_view(),
                parse_elems::<T>(from_pos(b@, cur as int), (count - i) as nat),
            ),
        decreases count - i,
    {
        let ghost old_out = out.deep_view();
        match T::read_from(b, cur) {
            Ok((v, n)) => {
                let ghost vd = v.deep_view();
                out.push(v);
                proof {
                    assert(out.deep_view() =~= old_out.push(vd));
                    let k = (count - i) as nat;
                    let tail = parse_elems::<T>(from_pos(b@, n as int), (k - 1) as nat);
                    match tail {
                        Some((ys, r2)) => {
                            assert(old_out + (seq![vd] + ys) =~= old_out.push(vd) + ys);
                        },
                        None => {},
                    }
                }
                cur = n;
                i = i + 1;
            },
            Err(e) => {
                assert(parse_elems::<T>(from_pos(b@, cur as int), (count - i) as nat) is None);
                assert(parse_elems::<T>(from_pos(b@, pos as int), total) is None);
                return Err(e);
            },
        }
    }
    assert(out.deep_view() + seq![] =~= out.deep_view());
    Ok((out, cur))
}

/// Reads a count-prefixed sequence of `T`.
pub fn de_array<T: ProtocolDeserializable>(b: &[u8], pos: usize) -> (r: Result<
    (Vec<T>, usize),
    DeserializeError,
>)
    requires
        pos <= b@.len(),
    ensures
        read_as(r, b@, pos as int, parse_array::<T>(from_pos(b@, pos as int)), |v: Vec<T>| v.deep_view()),
{
    let ghost s = from_pos(b@, pos as int);
    let rc = de_i32(b, pos);
    match rc {
        Ok((c, next)) => {
            assert(from_pos(b@, next as int).len() == s.skip(4).len());
            assert(from_pos(b@, next as int) == s.skip(4));
            de_array_transform(b, next, c)
        },
        Err(e) => Err(e),
    }
}

impl<T: ProtocolDeserializable> ProtocolDeserializable for Vec<T> {
    open spec fn parse(b: Seq<u8>) -> Option<(Seq<<T as DeepView>::V>, Seq<u8>)> {
        parse_array::<T>(b)
    }

    fn read_from(b: &[u8], pos: usize) -> (r: Result<(Vec<T>, usize), DeserializeError>) {
        de_array(b, pos)
    }
}

// ---------------------------------------------------------------------------
// Round trips
// ---------------------------------------------------------------------------

proof fn lemma_i16_prefix(v: i16, rest: Seq<u8>)
    ensures
        parse_i16(i16_bytes(v) + rest) == Some((v, rest)),
{
    lemma_i16_round_trip(v);
    let b = i16_bytes(v) + rest;
    assert(b[0] == i16_bytes(v)[0] && b[1] == i16_bytes(v)[1]);
    assert(b.skip(2) =~= rest);
}

proof fn lemma_i32_prefix(v: i32, rest: Seq<u8>)
    ensures
        parse_i32(i32_bytes(v) + rest) == Some((v, rest)),
{
    lemma_i32_round_trip(v);
    let b = i32_bytes(v) + rest;
    let e = i32_bytes(v);
    assert(b[0] == e[0] && b[1] == e[1] && b[2] == e[2] && b[3] == e[3]);
    assert(b.skip(4) =~= rest);
}

/// Every primitive value reads back as itself, and the bytes after it are
/// left untouched.
pub proof fn lemma_primitive_round_trip(p: ProtocolPrimitives, rest: Seq<u8>)
    ensures
        match p {
            ProtocolPrimitives::I8(v) => parse_i8(p.wire() + rest) == Some((v, rest)),
            ProtocolPrimitives::I16(v) => parse_i16(p.wire() + rest) == Some((v, rest)),
            ProtocolPrimitives::I32(v) => parse_i32(p.wire() + rest) == Some((v, rest)),
            ProtocolPrimitives::I64(v) => parse_i64(p.wire() + rest) == Some((v, rest)),
            ProtocolPrimitives::Boolean(v) => parse_bool(p.wire() + rest) == Some((v, rest)),
        },
{
    let b = p.wire() + rest;
    match p {
        ProtocolPrimitives::I8(v) => {
            lemma_i8_round_trip(v);
            assert(b.skip(1) =~= rest);
        },
        ProtocolPrimitives::I16(v) => {
            lemma_i16_prefix(v, rest);
        },
        ProtocolPrimitives::I32(v) => {
            lemma_i32_prefix(v, rest);
        },
        ProtocolPrimitives::I64(v) => {
            lemma_i64_round_trip(v);
            let e = i64_bytes(v);
            assert(b[0] == e[0] && b[1] == e[1] && b[2] == e[2] && b[3] == e[3]);
            assert(b[4] == e[4] && b[5] == e[5] && b[6] == e[6] && b[7] == e[7]);
            assert(be_i64(b) == be_i64(e));
            assert(b.skip(8) =~= rest);
        },
        ProtocolPrimitives::Boolean(v) => {
            assert(b.skip(1) =~= rest);
        },
    }
}

/// A string whose UTF-8 bytes fit the 16-bit length prefix reads back
/// exactly, the empty string included; a null string reads back as null.
/// Either way the bytes after it are left untouched.
pub proof fn lemma_string_round_trip(s: Option<String>, rest: Seq<u8>)
    requires
        s is Some ==> fits_i16(s.unwrap()@),
    ensures
        parse_nullable_string(s.wire() + rest) == Some((option_string_model(s), rest)),
{
    match s {
        Some(text) => {
            let e = encode_utf8(text@);
            let n = e.len() as int;
            let b = string_wire(text@) + rest;
            lemma_i16_round_trip(n as i16);
            assert(b[0] == i16_bytes(n as i16)[0] && b[1] == i16_bytes(n as i16)[1]);
            assert(be_i16(b[0], b[1]) as int == n);
            assert(b.subrange(2, 2 + n) =~= e);
            encode_utf8_valid_utf8(text@);
            encode_utf8_decode_utf8(text@);
            assert(b.skip(2 + n) =~= rest);
        },
        None => {
            lemma_i16_prefix(-1i16, rest);
            let b = i16_bytes(-1i16) + rest;
            assert(b.skip(2) =~= rest);
        },
    }
}

proof fn lemma_concat_first<T: ProtocolSerializable>(s: Seq<T>)
    requires
        s.len() > 0,
    ensures
        concat_wire(s) == s[0].wire() + concat_wire(s.drop_first()),
    decreases s.len(),
{
    if s.len() == 1 {
        assert(s.drop_last().len() == 0);
        assert(s.drop_first().len() == 0);
        assert(concat_wire(s.drop_last()) == Seq::<u8>::empty());
        assert(concat_wire(s.drop_first()) == Seq::<u8>::empty());
        assert(s.last() == s[0]);
        assert(concat_wire(s) =~= s[0].wire() + concat_wire(s.drop_first()));
    } else {
        let dl = s.drop_last();
        lemma_concat_first(dl);
        assert(s.drop_first().drop_last() =~= dl.drop_first());
        assert(s.drop_first().last() == s.last());
        assert(dl[0] == s[0]);
        assert(concat_wire(s) =~= s[0].wire() + concat_wire(s.drop_first()));
    }
}

proof fn lemma_elems_round_trip<T: ProtocolSerializable + ProtocolDeserializable>(
    xs: Seq<T>,
    rest: Seq<u8>,
)
    requires
        forall|i: int, r: Seq<u8>|
            0 <= i < xs.len() ==> #[trigger] T::parse(xs[i].wire() + r) == Some(
                (xs[i].deep_view(), r),
            ),
    ensures
        parse_elems::<T>(concat_wire(xs) + rest, xs.len()) == Some(
            (xs.map_values(|x: T| x.deep_view()), rest),
        ),
    decreases xs.len(),
{
    if xs.len() == 0 {
        assert(concat_wire(xs) + rest =~= rest);
        assert(xs.map_values(|x: T| x.deep_view()) =~= seq![]);
    } else {
        let tail = xs.drop_first();
        lemma_concat_first(xs);
        assert forall|i: int, r: Seq<u8>|
            0 <= i < tail.len() implies #[trigger] T::parse(tail[i].wire() + r) == Some(
                (tail[i].deep_view(), r),
            ) by {
            assert(tail[i] == xs[i + 1]);
            assert(T::parse(xs[i + 1].wire() + r) == Some((xs[i + 1].deep_view(), r)));
        }
        lemma_elems_round_trip(tail, rest);
        let r1 = concat_wire(tail) + rest;
        assert(concat_wire(xs) + rest =~= xs[0].wire() + r1);
        assert(T::parse(xs[0].wire() + r1) == Some((xs[0].deep_view(), r1)));
        assert(seq![xs[0].deep_view()] + tail.map_values(|x: T| x.deep_view()) =~= xs.map_values(
            |x: T| x.deep_view(),
        ));
    }
}

/// A sequence reads back with its elements in their order and number,
/// wherever each element reads back as itself; the bytes after it are left
/// untouched.
pub proof fn lemma_array_round_trip<T: ProtocolSerializable + ProtocolDeserializable>(
    v: Vec<T>,
    rest: Seq<u8>,
)
    requires
        v@.len() <= i32::MAX,
        forall|i: int, r: Seq<u8>|
            0 <= i < v@.len() ==> #[trigger] T::parse(v@[i].wire() + r) == Some(
                (v@[i].deep_view(), r),
            ),
    ensures
        parse_array::<T>(v.wire() + rest) == Some((v.deep_view(), rest)),
{
    let n = v@.len();
    let body = concat_wire(v@) + rest;
    lemma_i32_prefix(n as i32, body);
    assert(v.wire() + rest =~= i32_bytes(n as i32) + body);
    lemma_elems_round_trip(v@, rest);
    assert(v@.map_values(|x: T| x.deep_view()) =~= v.deep_view());
}

/// An empty sequence is the 4-byte count zero.
pub proof fn lemma_empty_array_wire<T: ProtocolSerializable>(v: Vec<T>)
    requires
        v@.len() == 0,
    ensures
        v.wire() == seq![0u8, 0u8, 0u8, 0u8],
{
    assert(0u32 >> 24u32 == 0u32 && 0u32 >> 16u32 == 0u32 && 0u32 >> 8u32 == 0u32) by (bit_vector);
    assert(v.wire() =~= seq![0u8, 0u8, 0u8, 0u8]);
}

// ---------------------------------------------------------------------------
// Copies that keep the value
// ---------------------------------------------------------------------------

/// A copy of a value with the same model.
pub trait Duplicate: Sized + DeepView {
    fn duplicate(&self) -> (r: Self)
        ensures
            r.deep_view() == self.deep_view(),
    ;
}

impl Duplicate for i8 {
    fn duplicate(&self) -> (r: i8) {
        *self
    }
}

impl Duplicate for i16 {
    fn duplicate(&self) -> (r: i16) {
        *self
    }
}

impl Duplicate for i32 {
    fn duplicate(&self) -> (r: i32) {
        *self
    }
}

impl Duplicate for i64 {
    fn duplicate(&self) -> (r: i64) {
        *self
    }
}

impl Duplicate for bool {
    fn duplicate(&self) -> (r: bool) {
        *self
    }
}

impl Duplicate for String {
    fn duplicate(&self) -> (r: String) {
        self.clone()
    }
}

impl Duplicate for Option<String> {
    fn duplicate(&self) -> (r: Option<String>) {
        match self {
            Some(s) => Some(s.clone()),
            None => None,
        }
    }
}

impl<T: Duplicate> Duplicate for Vec<T> {
    fn duplicate(&self) -> (r: Vec<T>) {
        let mut r: Vec<T> = Vec::new();
        let mut i: usize = 0;
        while i < self.len()
            invariant
                i <= self@.len(),
                r@.len() == i,
                forall|j: int| 0 <= j < i ==> #[trigger] r@[j].deep_view() == self@[j].deep_view(),
            decreases self@.len() - i,
        {
            r.push(self[i].duplicate());
            i = i + 1;
        }
        assert(r.deep_view() =~= self.deep_view());
        r
    }
}

} // verus!
