//! Response header framing.
//!
//! The wire layout of a response header is fixed, little-endian and packed:
//! magic number (4 bytes), header size (2 bytes), protocol version major and
//! minor (1 byte each), provider (1 byte), session handle (8 bytes), content
//! type (1 byte), body length (4 bytes), opcode (2 bytes) and status
//! (2 bytes).

use vstd::prelude::*;

use crate::requests::{
    BodyType, Opcode, ProviderID, ResponseStatus, MAGIC_NUMBER, RESPONSE_HDR_SIZE,
    WIRE_PROTOCOL_VERSION_MAJ, WIRE_PROTOCOL_VERSION_MIN,
};

verus! {

/// Little-endian bytes of a `u16`.
pub open spec fn spec_u16_le(v: u16) -> Seq<u8> {
    seq![(v & 0xff) as u8, ((v >> 8) & 0xff) as u8]
}

/// Little-endian bytes of a `u32`.
pub open spec fn spec_u32_le(v: u32) -> Seq<u8> {
    seq![
        (v & 0xff) as u8,
        ((v >> 8) & 0xff) as u8,
        ((v >> 16) & 0xff) as u8,
        ((v >> 24) & 0xff) as u8,
    ]
}

/// Little-endian bytes of a `u64`.
pub open spec fn spec_u64_le(v: u64) -> Seq<u8> {
    seq![
        (v & 0xff) as u8,
        ((v >> 8) & 0xff) as u8,
        ((v >> 16) & 0xff) as u8,
        ((v >> 24) & 0xff) as u8,
        ((v >> 32) & 0xff) as u8,
        ((v >> 40) & 0xff) as u8,
        ((v >> 48) & 0xff) as u8,
        ((v >> 56) & 0xff) as u8,
    ]
}

/// The `u16` read little-endian at position `i` of `s`.
pub open spec fn spec_u16_at(s: Seq<u8>, i: int) -> u16 {
    (s[i] as u16) | ((s[i + 1] as u16) << 8)
}

/// The `u32` read little-endian at position `i` of `s`.
pub open spec fn spec_u32_at(s: Seq<u8>, i: int) -> u32 {
    (s[i] as u32) | ((s[i + 1] as u32) << 8) | ((s[i + 2] as u32) << 16) | ((s[i + 3] as u32)
        << 24)
}

/// The `u64` read little-endian at position `i` of `s`.
pub open spec fn spec_u64_at(s: Seq<u8>, i: int) -> u64 {
    (s[i] as u64) | ((s[i + 1] as u64) << 8) | ((s[i + 2] as u64) << 16) | ((s[i + 3] as u64)
        << 24) | ((s[i + 4] as u64) << 32) | ((s[i + 5] as u64) << 40) | ((s[i + 6] as u64) << 48)
        | ((s[i + 7] as u64) << 56)
}

proof fn lemma_u16_le_roundtrip(v: u16)
    ensures
        spec_u16_at(spec_u16_le(v), 0) == v,
{
    assert(((v & 0xff) as u8 as u16) | ((((v >> 8) & 0xff) as u8 as u16) << 8) == v)
        by (bit_vector);
}

proof fn lemma_u32_le_roundtrip(v: u32)
    ensures
        spec_u32_at(spec_u32_le(v), 0) == v,
{
    assert(((v & 0xff) as u8 as u32) | ((((v >> 8) & 0xff) as u8 as u32) << 8) | ((((v >> 16)
        & 0xff) as u8 as u32) << 16) | ((((v >> 24) & 0xff) as u8 as u32) << 24) == v)
        by (bit_vector);
}

proof fn lemma_u64_le_roundtrip(v: u64)
    ensures
        spec_u64_at(spec_u64_le(v), 0) == v,
{
    assert(((v & 0xff) as u8 as u64) | ((((v >> 8) & 0xff) as u8 as u64) << 8) | ((((v >> 16)
        & 0xff) as u8 as u64) << 16) | ((((v >> 24) & 0xff) as u8 as u64) << 24) | ((((v >> 32)
        & 0xff) as u8 as u64) << 32) | ((((v >> 40) & 0xff) as u8 as u64) << 40) | ((((v >> 48)
        & 0xff) as u8 as u64) << 48) | ((((v >> 56) & 0xff) as u8 as u64) << 56) == v)
        by (bit_vector);
}

/// A raw representation of a response header, as defined in the wire format.
#[derive(Copy, Clone, Debug, PartialEq, Eq, Structural)]
pub struct Raw {
    /// Provider ID value
    pub provider: u8,
    /// Session handle
    pub session: u64,
    /// Content type: defines how the request body should be processed.
    pub content_type: u8,
    /// Number of bytes of content.
    pub body_len: u32,
    /// Opcode of the operation to perform.
    pub opcode: u16,
    /// Response status of the request.
    pub status: u16,
}

/// The exact bytes a raw response header serialises to: magic number,
/// header size, protocol version, then the header fields, all little-endian.
pub open spec fn spec_raw_bytes(h: Raw) -> Seq<u8> {
    spec_u32_le(MAGIC_NUMBER) + spec_u16_le(RESPONSE_HDR_SIZE) + seq![
        WIRE_PROTOCOL_VERSION_MAJ,
        WIRE_PROTOCOL_VERSION_MIN,
        h.provider,
    ] + spec_u64_le(h.session) + seq![h.content_type] + spec_u32_le(h.body_len) + spec_u16_le(
        h.opcode,
    ) + spec_u16_le(h.status)
}

/// What parsing a response header from the given bytes yields: the raw
/// header, or the error the first failing check reports.
///
/// The checks run in order: the buffer holds at least the magic number and
/// size fields; the magic number matches exactly; the declared header size
/// equals the expected constant; the buffer holds exactly the declared
/// number of bytes after the six-byte prefix; the protocol version is the
/// single supported one.
pub open spec fn spec_parse_raw(s: Seq<u8>) -> Result<Raw, ResponseStatus> {
    if s.len() < 6 {
        Err(ResponseStatus::InvalidHeader)
    } else if spec_u32_at(s, 0) != MAGIC_NUMBER {
        Err(ResponseStatus::InvalidHeader)
    } else if spec_u16_at(s, 4) != RESPONSE_HDR_SIZE {
        Err(ResponseStatus::InvalidHeader)
    } else if s.len() != 6 + RESPONSE_HDR_SIZE {
        Err(ResponseStatus::InvalidHeader)
    } else if s[6] != WIRE_PROTOCOL_VERSION_MAJ || s[7] != WIRE_PROTOCOL_VERSION_MIN {
        Err(ResponseStatus::WireProtocolVersionNotSupported)
    } else {
        Ok(
            Raw {
                provider: s[8],
                session: spec_u64_at(s, 9),
                content_type: s[17],
                body_len: spec_u32_at(s, 18),
                opcode: spec_u16_at(s, 22),
                status: spec_u16_at(s, 24),
            },
        )
    }
}

impl Raw {
    /// Create a new raw response header with all fields zero.
    pub fn new() -> (r: Raw)
        ensures
            r == (Raw { provider: 0u8, session: 0u64, content_type: 0u8, body_len: 0u32, opcode: 0u16, status: 0u16 }),
    {
        Raw { provider: 0, session: 0, content_type: 0, body_len: 0, opcode: 0, status: 0 }
    }

    /// Serialise the response header into the exact byte string of the wire
    /// format, version prefix included.
    ///
    /// The caller is expected to fill the body length in before serialising;
    /// writing these bytes to the transport stream is the caller's business.
    pub fn to_bytes(&self) -> (r: Vec<u8>)
        ensures
            r@ == spec_raw_bytes(*self),
    {
        let mut out: Vec<u8> = Vec::new();
        push_u32_le(&mut out, MAGIC_NUMBER);
        push_u16_le(&mut out, RESPONSE_HDR_SIZE);
        out.push(WIRE_PROTOCOL_VERSION_MAJ);
        out.push(WIRE_PROTOCOL_VERSION_MIN);
        out.push(self.provider);
        push_u64_le(&mut out, self.session);
        out.push(self.content_type);
        push_u32_le(&mut out, self.body_len);
        push_u16_le(&mut out, self.opcode);
        push_u16_le(&mut out, self.status);
        proof {
            assert(out@ =~= spec_raw_bytes(*self));
        }
        out
    }

    /// Deserialise a response header from the bytes read off the stream: the
    /// four magic-number bytes, the two size bytes, and the declared number
    /// of bytes after them.
    ///
    /// # Errors
    /// - if the magic number or the declared header size is wrong, or the
    ///   buffer is shorter or longer than declared, `InvalidHeader` is
    ///   returned
    /// - if the protocol version is not the single supported one,
    ///   `WireProtocolVersionNotSupported` is returned
    pub fn from_bytes(bytes: &Vec<u8>) -> (r: Result<Raw, ResponseStatus>)
        ensures
            r == spec_parse_raw(bytes@),
    {
        if bytes.len() < 6 {
            return Err(ResponseStatus::InvalidHeader);
        }
        let magic = read_u32_le(bytes, 0);
        if magic != MAGIC_NUMBER {
            return Err(ResponseStatus::InvalidHeader);
        }
        let hdr_size = read_u16_le(bytes, 4);
        if hdr_size != RESPONSE_HDR_SIZE {
            return Err(ResponseStatus::InvalidHeader);
        }
        if bytes.len() != 6 + RESPONSE_HDR_SIZE as usize {
            return Err(ResponseStatus::InvalidHeader);
        }
        let version_maj = bytes[6];
        let version_min = bytes[7];
        if version_maj != WIRE_PROTOCOL_VERSION_MAJ || version_min != WIRE_PROTOCOL_VERSION_MIN {
            return Err(ResponseStatus::WireProtocolVersionNotSupported);
        }
        Ok(
            Raw {
                provider: bytes[8],
                session: read_u64_le(bytes, 9),
                content_type: bytes[17],
                body_len: read_u32_le(bytes, 18),
                opcode: read_u16_le(bytes, 22),
                status: read_u16_le(bytes, 24),
            },
        )
    }
}

/// Serialising a raw header and parsing the bytes back yields the header
/// unchanged, whatever its field values.
pub proof fn lemma_raw_header_roundtrip(h: Raw)
    ensures
        spec_parse_raw(spec_raw_bytes(h)) == Ok::<Raw, ResponseStatus>(h),
{
    let s = spec_raw_bytes(h);
    assert(s.len() == 26);
    lemma_u32_le_roundtrip(MAGIC_NUMBER);
    assert(spec_u32_at(s, 0) == spec_u32_at(spec_u32_le(MAGIC_NUMBER), 0));
    lemma_u16_le_roundtrip(RESPONSE_HDR_SIZE);
    assert(spec_u16_at(s, 4) == spec_u16_at(spec_u16_le(RESPONSE_HDR_SIZE), 0));
    lemma_u64_le_roundtrip(h.session);
    assert(spec_u64_at(s, 9) == spec_u64_at(spec_u64_le(h.session), 0));
    lemma_u32_le_roundtrip(h.body_len);
    assert(spec_u32_at(s, 18) == spec_u32_at(spec_u32_le(h.body_len), 0));
    lemma_u16_le_roundtrip(h.opcode);
    assert(spec_u16_at(s, 22) == spec_u16_at(spec_u16_le(h.opcode), 0));
    lemma_u16_le_roundtrip(h.status);
    assert(spec_u16_at(s, 24) == spec_u16_at(spec_u16_le(h.status), 0));
}

fn push_u16_le(out: &mut Vec<u8>, v: u16)
    ensures
        final(out)@ == old(out)@ + spec_u16_le(v),
{
    out.push((v & 0xff) as u8);
    out.push(((v >> 8) & 0xff) as u8);
    proof {
        assert(out@ =~= old(out)@ + spec_u16_le(v));
    }
}

fn push_u32_le(out: &mut Vec<u8>, v: u32)
    ensures
        final(out)@ == old(out)@ + spec_u32_le(v),
{
    out.push((v & 0xff) as u8);
    out.push(((v >> 8) & 0xff) as u8);
    out.push(((v >> 16) & 0xff) as u8);
    out.push(((v >> 24) & 0xff) as u8);
    proof {
        assert(out@ =~= old(out)@ + spec_u32_le(v));
    }
}

fn push_u64_le(out: &mut Vec<u8>, v: u64)
    ensures
        final(out)@ == old(out)@ + spec_u64_le(v),
{
    out.push((v & 0xff) as u8);
    out.push(((v >> 8) & 0xff) as u8);
    out.push(((v >> 16) & 0xff) as u8);
    out.push(((v >> 24) & 0xff) as u8);
    out.push(((v >> 32) & 0xff) as u8);
    out.push(((v >> 40) & 0xff) as u8);
    out.push(((v >> 48) & 0xff) as u8);
    out.push(((v >> 56) & 0xff) as u8);
    proof {
        assert(out@ =~= old(out)@ + spec_u64_le(v));
    }
}

fn read_u16_le(bytes: &Vec<u8>, i: usize) -> (r: u16)
    requires
        i + 2 <= bytes.len(),
    ensures
        r == spec_u16_at(bytes@, i as int),
{
    (bytes[i] as u16) | ((bytes[i + 1] as u16) << 8)
}

fn read_u32_le(bytes: &Vec<u8>, i: usize) -> (r: u32)
    requires
        i + 4 <= bytes.len(),
    ensures
        r == spec_u32_at(bytes@, i as int),
{
    (bytes[i] as u32) | ((bytes[i + 1] as u32) << 8) | ((bytes[i + 2] as u32) << 16) | ((bytes[i
        + 3] as u32) << 24)
}

fn read_u64_le(bytes: &Vec<u8>, i: usize) -> (r: u64)
    requires
        i + 8 <= bytes.len(),
    ensures
        r == spec_u64_at(bytes@, i as int),
{
    (bytes[i] as u64) | ((bytes[i + 1] as u64) << 8) | ((bytes[i + 2] as u64) << 16) | ((bytes[i
        + 3] as u64) << 24) | ((bytes[i + 4] as u64) << 32) | ((bytes[i + 5] as u64) << 40) | ((
    bytes[i + 6] as u64) << 48) | ((bytes[i + 7] as u64) << 56)
}

/// A native representation of the response header.
///
/// Fields that are only needed for framing (magic number, header size,
/// protocol version, body length) are not carried across from the raw
/// header.
#[derive(Copy, Clone, Debug, PartialEq, Eq, Structural)]
pub struct ResponseHeader {
    /// Provider ID value
    pub provider: ProviderID,
    /// Session handle
    pub session: u64,
    /// Content type: defines how the request body should be processed.
    pub content_type: BodyType,
    /// Opcode of the operation to perform.
    pub opcode: Opcode,
    /// Response status of the request.
    pub status: ResponseStatus,
}

/// What promoting a raw header to a native one yields: each numeric field is
/// looked up in its enumeration, and the first unknown code reports its own
/// error.
pub open spec fn spec_header_from_raw(raw: Raw) -> Result<ResponseHeader, ResponseStatus> {
    match ProviderID::spec_from_code(raw.provider) {
        Option::None => Err(ResponseStatus::ProviderDoesNotExist),
        Option::Some(provider) => match BodyType::spec_from_code(raw.content_type) {
            Option::None => Err(ResponseStatus::ContentTypeNotSupported),
            Option::Some(content_type) => match Opcode::spec_from_code(raw.opcode) {
                Option::None => Err(ResponseStatus::OpcodeDoesNotExist),
                Option::Some(opcode) => match ResponseStatus::spec_from_code(raw.status) {
                    Option::None => Err(ResponseStatus::InvalidEncoding),
                    Option::Some(status) => Ok(
                        ResponseHeader { provider, session: raw.session, content_type, opcode, status },
                    ),
                },
            },
        },
    }
}

/// The raw header a native one demotes to: every numeric code is defined,
/// and the body length is zero until the caller fills it in.
pub open spec fn spec_raw_from_header(h: ResponseHeader) -> Raw {
    Raw {
        provider: h.provider.spec_code(),
        session: h.session,
        content_type: h.content_type.spec_code(),
        body_len: 0u32,
        opcode: h.opcode.spec_code(),
        status: h.status.spec_code(),
    }
}

impl ResponseHeader {
    /// Create a new response header with default field values.
    pub fn new() -> (r: ResponseHeader)
        ensures
            r == (ResponseHeader {
                provider: ProviderID::Core,
                session: 0u64,
                content_type: BodyType::Protobuf,
                opcode: Opcode::Ping,
                status: ResponseStatus::Success,
            }),
    {
        ResponseHeader {
            provider: ProviderID::Core,
            session: 0,
            content_type: BodyType::Protobuf,
            opcode: Opcode::Ping,
            status: ResponseStatus::Success,
        }
    }

    /// Promote a raw header to a native one, validating every numeric code.
    ///
    /// # Errors
    /// - `ProviderDoesNotExist` for an unknown provider code
    /// - `ContentTypeNotSupported` for an unknown content-type code
    /// - `OpcodeDoesNotExist` for an unknown opcode
    /// - `InvalidEncoding` for an unknown status code
    pub fn try_from(raw: Raw) -> (r: Result<ResponseHeader, ResponseStatus>)
        ensures
            r == spec_header_from_raw(raw),
    {
        let provider = match ProviderID::from_u8(raw.provider) {
            Option::Some(provider) => provider,
            Option::None => {
                return Err(ResponseStatus::ProviderDoesNotExist);
            },
        };
        let content_type = match BodyType::from_u8(raw.content_type) {
            Option::Some(content_type) => content_type,
            Option::None => {
                return Err(ResponseStatus::ContentTypeNotSupported);
            },
        };
        let opcode = match Opcode::from_u16(raw.opcode) {
            Option::Some(opcode) => opcode,
            Option::None => {
                return Err(ResponseStatus::OpcodeDoesNotExist);
            },
        };
        let status = match ResponseStatus::from_u16(raw.status) {
            Option::Some(status) => status,
            Option::None => {
                return Err(ResponseStatus::InvalidEncoding);
            },
        };
        Ok(ResponseHeader { provider, session: raw.session, content_type, opcode, status })
    }
}

impl From<ResponseHeader> for Raw {
    /// Demote a native header to a raw one; this never fails, and writes
    /// body length zero for the caller to fill in.
    fn from(header: ResponseHeader) -> (r: Raw) {
        Raw {
            provider: header.provider.to_u8(),
            session: header.session,
            content_type: header.content_type.to_u8(),
            body_len: 0,
            opcode: header.opcode.to_u16(),
            status: header.status.to_u16(),
        }
    }
}

impl vstd::std_specs::convert::FromSpecImpl<ResponseHeader> for Raw {
    open spec fn obeys_from_spec() -> bool {
        true
    }

    open spec fn from_spec(header: ResponseHeader) -> Raw {
        spec_raw_from_header(header)
    }
}

/// Demoting a native header to its raw form and promoting it back yields
/// the header unchanged: every native enumeration value has a defined
/// numeric code, and that code looks up to the same value.
pub proof fn lemma_header_roundtrip(h: ResponseHeader)
    ensures
        spec_header_from_raw(spec_raw_from_header(h)) == Ok::<ResponseHeader, ResponseStatus>(h),
{
}

} // verus!
