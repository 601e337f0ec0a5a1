//! Response header framing: serialisation, parsing and the raw-to-native
//! promotion.

use parsec_interface::requests::response_header::{Raw, ResponseHeader};
use parsec_interface::requests::{
    BodyType, Opcode, ProviderID, ResponseStatus, MAGIC_NUMBER, RESPONSE_HDR_SIZE,
    WIRE_PROTOCOL_VERSION_MAJ, WIRE_PROTOCOL_VERSION_MIN,
};

fn sample_raw() -> Raw {
    Raw {
        provider: 1,
        session: 0x0102_0304_0506_0708,
        content_type: 0,
        body_len: 16,
        opcode: 0x0017,
        status: 0,
    }
}

#[test]
fn header_bytes_are_exact() {
    let bytes = sample_raw().to_bytes();
    assert_eq!(
        bytes,
        vec![
            0x10, 0xA7, 0xC0, 0x5E, // magic number, little-endian
            0x14, 0x00, // header size: 20
            0x01, 0x00, // protocol version 1.0
            0x01, // provider
            0x08, 0x07, 0x06, 0x05, 0x04, 0x03, 0x02, 0x01, // session
            0x00, // content type
            0x10, 0x00, 0x00, 0x00, // body length
            0x17, 0x00, // opcode
            0x00, 0x00, // status
        ]
    );
}

#[test]
fn header_roundtrip() {
    let raw = sample_raw();
    let parsed = Raw::from_bytes(&raw.to_bytes()).unwrap();
    assert_eq!(parsed, raw);
}

#[test]
fn wrong_magic_number_is_rejected() {
    let mut bytes = sample_raw().to_bytes();
    bytes[0] = 0x11;
    assert_eq!(Raw::from_bytes(&bytes).unwrap_err(), ResponseStatus::InvalidHeader);
}

#[test]
fn wrong_header_size_is_rejected() {
    let mut bytes = sample_raw().to_bytes();
    bytes[4] = RESPONSE_HDR_SIZE as u8 + 1;
    assert_eq!(Raw::from_bytes(&bytes).unwrap_err(), ResponseStatus::InvalidHeader);
}

#[test]
fn truncated_header_is_rejected() {
    let mut bytes = sample_raw().to_bytes();
    let _ = bytes.pop();
    assert_eq!(Raw::from_bytes(&bytes).unwrap_err(), ResponseStatus::InvalidHeader);
    assert_eq!(
        Raw::from_bytes(&vec![0x10, 0xA7, 0xC0]).unwrap_err(),
        ResponseStatus::InvalidHeader
    );
}

#[test]
fn wrong_version_is_rejected() {
    let mut bytes = sample_raw().to_bytes();
    bytes[6] = WIRE_PROTOCOL_VERSION_MAJ + 1;
    assert_eq!(
        Raw::from_bytes(&bytes).unwrap_err(),
        ResponseStatus::WireProtocolVersionNotSupported
    );
    let mut bytes = sample_raw().to_bytes();
    bytes[7] = WIRE_PROTOCOL_VERSION_MIN + 1;
    assert_eq!(
        Raw::from_bytes(&bytes).unwrap_err(),
        ResponseStatus::WireProtocolVersionNotSupported
    );
}

#[test]
fn unknown_opcode_is_rejected() {
    let mut raw = sample_raw();
    raw.opcode = 0x1D; // a code the known set skips
    assert_eq!(
        ResponseHeader::try_from(raw).unwrap_err(),
        ResponseStatus::OpcodeDoesNotExist
    );
    let mut raw = sample_raw();
    raw.opcode = 0xFFFF;
    assert_eq!(
        ResponseHeader::try_from(raw).unwrap_err(),
        ResponseStatus::OpcodeDoesNotExist
    );
}

#[test]
fn unknown_provider_content_type_status_are_rejected() {
    let mut raw = sample_raw();
    raw.provider = 6;
    assert_eq!(
        ResponseHeader::try_from(raw).unwrap_err(),
        ResponseStatus::ProviderDoesNotExist
    );
    let mut raw = sample_raw();
    raw.content_type = 1;
    assert_eq!(
        ResponseHeader::try_from(raw).unwrap_err(),
        ResponseStatus::ContentTypeNotSupported
    );
    let mut raw = sample_raw();
    raw.status = 22;
    assert_eq!(
        ResponseHeader::try_from(raw).unwrap_err(),
        ResponseStatus::InvalidEncoding
    );
}

#[test]
fn raw_to_native_and_back() {
    let native = ResponseHeader {
        provider: ProviderID::MbedCrypto,
        session: 77,
        content_type: BodyType::Protobuf,
        opcode: Opcode::PsaMacVerify,
        status: ResponseStatus::PsaErrorNotPermitted,
    };
    let raw: Raw = native.into();
    assert_eq!(raw.provider, 1);
    assert_eq!(raw.body_len, 0); // the demotion always writes body length 0
    assert_eq!(raw.opcode, 0x0017);
    assert_eq!(raw.status, 1133);
    assert_eq!(ResponseHeader::try_from(raw).unwrap(), native);
}

#[test]
fn default_headers() {
    let raw = Raw::new();
    assert_eq!(raw.provider, 0);
    assert_eq!(raw.session, 0);
    assert_eq!(raw.body_len, 0);
    let native = ResponseHeader::new();
    assert_eq!(native.provider, ProviderID::Core);
    assert_eq!(native.opcode, Opcode::Ping);
    assert_eq!(native.status, ResponseStatus::Success);
}

#[test]
fn opcode_codes_are_stable() {
    assert_eq!(Opcode::Ping.to_u16(), 0x0001);
    assert_eq!(Opcode::PsaExportKey.to_u16(), 0x000C);
    assert_eq!(Opcode::PsaMacCompute.to_u16(), 0x0016);
    assert_eq!(Opcode::PsaMacVerify.to_u16(), 0x0017);
    assert_eq!(Opcode::CanDoCrypto.to_u16(), 0x0020);
    assert_eq!(Opcode::from_u16(0x0016).unwrap(), Opcode::PsaMacCompute);
    assert_eq!(Opcode::from_u16(0x001D), None);
    assert_eq!(ResponseStatus::PsaErrorNotPermitted.to_u16(), 1133);
    assert_eq!(
        ResponseStatus::from_u16(4).unwrap(),
        ResponseStatus::WireProtocolVersionNotSupported
    );
    assert_eq!(ResponseStatus::from_u16(1131), None);
    assert_eq!(ProviderID::TrustedService.to_u8(), 5);
    assert_eq!(BodyType::Protobuf.to_u8(), 0);
}
