//! Request and response definitions shared by every operation: opcodes,
//! response statuses, provider identifiers, body containers and the wire
//! protocol constants.

pub mod response_header;

use vstd::prelude::*;

verus! {

/// Magic number that starts every header on the wire.
pub const MAGIC_NUMBER: u32 = 0x5EC0_A710;

/// Size in bytes of a response header on the wire, magic number and size
/// field excluded.
pub const RESPONSE_HDR_SIZE: u16 = 20;

/// Major version of the single wire protocol version this build speaks.
pub const WIRE_PROTOCOL_VERSION_MAJ: u8 = 1;

/// Minor version of the single wire protocol version this build speaks.
pub const WIRE_PROTOCOL_VERSION_MIN: u8 = 0;

/// Stable numeric identifier of one operation kind on the wire.
///
/// Uniqueness and stability across protocol versions are required; the total
/// ordering of the codes is irrelevant.
#[derive(Copy, Clone, Debug, PartialEq, Eq, Structural)]
pub enum Opcode {
    /// Ping operation
    Ping,
    /// PsaGenerateKey operation
    PsaGenerateKey,
    /// PsaDestroyKey operation
    PsaDestroyKey,
    /// PsaSignHash operation
    PsaSignHash,
    /// PsaVerifyHash operation
    PsaVerifyHash,
    /// PsaImportKey operation
    PsaImportKey,
    /// PsaExportPublicKey operation
    PsaExportPublicKey,
    /// ListProviders operation
    ListProviders,
    /// ListOpcodes operation
    ListOpcodes,
    /// PsaAsymmetricEncrypt operation
    PsaAsymmetricEncrypt,
    /// PsaAsymmetricDecrypt operation
    PsaAsymmetricDecrypt,
    /// PsaExportKey operation
    PsaExportKey,
    /// PsaGenerateRandom operation
    PsaGenerateRandom,
    /// ListAuthenticators operation
    ListAuthenticators,
    /// PsaHashCompute operation
    PsaHashCompute,
    /// PsaHashCompare operation
    PsaHashCompare,
    /// PsaAeadEncrypt operation
    PsaAeadEncrypt,
    /// PsaAeadDecrypt operation
    PsaAeadDecrypt,
    /// PsaRawKeyAgreement operation
    PsaRawKeyAgreement,
    /// PsaCipherEncrypt operation
    PsaCipherEncrypt,
    /// PsaCipherDecrypt operation
    PsaCipherDecrypt,
    /// PsaMacCompute operation
    PsaMacCompute,
    /// PsaMacVerify operation
    PsaMacVerify,
    /// PsaSignMessage operation
    PsaSignMessage,
    /// PsaVerifyMessage operation
    PsaVerifyMessage,
    /// ListKeys operation
    ListKeys,
    /// ListClients operation
    ListClients,
    /// DeleteClient operation
    DeleteClient,
    /// AttestKey operation
    AttestKey,
    /// PrepareKeyAttestation operation
    PrepareKeyAttestation,
    /// CanDoCrypto operation
    CanDoCrypto,
}

impl Opcode {
    /// Numeric code of the opcode on the wire.
    pub open spec fn spec_code(self) -> u16 {
        match self {
            Opcode::Ping => 0x0001,
            Opcode::PsaGenerateKey => 0x0002,
            Opcode::PsaDestroyKey => 0x0003,
            Opcode::PsaSignHash => 0x0004,
            Opcode::PsaVerifyHash => 0x0005,
            Opcode::PsaImportKey => 0x0006,
            Opcode::PsaExportPublicKey => 0x0007,
            Opcode::ListProviders => 0x0008,
            Opcode::ListOpcodes => 0x0009,
            Opcode::PsaAsymmetricEncrypt => 0x000A,
            Opcode::PsaAsymmetricDecrypt => 0x000B,
            Opcode::PsaExportKey => 0x000C,
            Opcode::PsaGenerateRandom => 0x000D,
            Opcode::ListAuthenticators => 0x000E,
            Opcode::PsaHashCompute => 0x000F,
            Opcode::PsaHashCompare => 0x0010,
            Opcode::PsaAeadEncrypt => 0x0011,
            Opcode::PsaAeadDecrypt => 0x0012,
            Opcode::PsaRawKeyAgreement => 0x0013,
            Opcode::PsaCipherEncrypt => 0x0014,
            Opcode::PsaCipherDecrypt => 0x0015,
            Opcode::PsaMacCompute => 0x0016,
            Opcode::PsaMacVerify => 0x0017,
            Opcode::PsaSignMessage => 0x0018,
            Opcode::PsaVerifyMessage => 0x0019,
            Opcode::ListKeys => 0x001A,
            Opcode::ListClients => 0x001B,
            Opcode::DeleteClient => 0x001C,
            Opcode::AttestKey => 0x001E,
            Opcode::PrepareKeyAttestation => 0x001F,
            Opcode::CanDoCrypto => 0x0020,
        }
    }

    /// The opcode a numeric code stands for, if the code is a known one.
    pub open spec fn spec_from_code(code: u16) -> Option<Opcode> {
        match code {
            0x0001u16 => Some(Opcode::Ping),
            0x0002u16 => Some(Opcode::PsaGenerateKey),
            0x0003u16 => Some(Opcode::PsaDestroyKey),
            0x0004u16 => Some(Opcode::PsaSignHash),
            0x0005u16 => Some(Opcode::PsaVerifyHash),
            0x0006u16 => Some(Opcode::PsaImportKey),
            0x0007u16 => Some(Opcode::PsaExportPublicKey),
            0x0008u16 => Some(Opcode::ListProviders),
            0x0009u16 => Some(Opcode::ListOpcodes),
            0x000Au16 => Some(Opcode::PsaAsymmetricEncrypt),
            0x000Bu16 => Some(Opcode::PsaAsymmetricDecrypt),
            0x000Cu16 => Some(Opcode::PsaExportKey),
            0x000Du16 => Some(Opcode::PsaGenerateRandom),
            0x000Eu16 => Some(Opcode::ListAuthenticators),
            0x000Fu16 => Some(Opcode::PsaHashCompute),
            0x0010u16 => Some(Opcode::PsaHashCompare),
            0x0011u16 => Some(Opcode::PsaAeadEncrypt),
            0x0012u16 => Some(Opcode::PsaAeadDecrypt),
            0x0013u16 => Some(Opcode::PsaRawKeyAgreement),
            0x0014u16 => Some(Opcode::PsaCipherEncrypt),
            0x0015u16 => Some(Opcode::PsaCipherDecrypt),
            0x0016u16 => Some(Opcode::PsaMacCompute),
            0x0017u16 => Some(Opcode::PsaMacVerify),
            0x0018u16 => Some(Opcode::PsaSignMessage),
            0x0019u16 => Some(Opcode::PsaVerifyMessage),
            0x001Au16 => Some(Opcode::ListKeys),
            0x001Bu16 => Some(Opcode::ListClients),
            0x001Cu16 => Some(Opcode::DeleteClient),
            0x001Eu16 => Some(Opcode::AttestKey),
            0x001Fu16 => Some(Opcode::PrepareKeyAttestation),
            0x0020u16 => Some(Opcode::CanDoCrypto),
            _ => None,
        }
    }

    /// Numeric code of the opcode on the wire.
    pub fn to_u16(self) -> (r: u16)
        ensures
            r == self.spec_code(),
    {
        match self {
            Opcode::Ping => 0x0001,
            Opcode::PsaGenerateKey => 0x0002,
            Opcode::PsaDestroyKey => 0x0003,
            Opcode::PsaSignHash => 0x0004,
            Opcode::PsaVerifyHash => 0x0005,
            Opcode::PsaImportKey => 0x0006,
            Opcode::PsaExportPublicKey => 0x0007,
            Opcode::ListProviders => 0x0008,
            Opcode::ListOpcodes => 0x0009,
            Opcode::PsaAsymmetricEncrypt => 0x000A,
            Opcode::PsaAsymmetricDecrypt => 0x000B,
            Opcode::PsaExportKey => 0x000C,
            Opcode::PsaGenerateRandom => 0x000D,
            Opcode::ListAuthenticators => 0x000E,
            Opcode::PsaHashCompute => 0x000F,
            Opcode::PsaHashCompare => 0x0010,
            Opcode::PsaAeadEncrypt => 0x0011,
            Opcode::PsaAeadDecrypt => 0x0012,
            Opcode::PsaRawKeyAgreement => 0x0013,
            Opcode::PsaCipherEncrypt => 0x0014,
            Opcode::PsaCipherDecrypt => 0x0015,
            Opcode::PsaMacCompute => 0x0016,
            Opcode::PsaMacVerify => 0x0017,
            Opcode::PsaSignMessage => 0x0018,
            Opcode::PsaVerifyMessage => 0x0019,
            Opcode::ListKeys => 0x001A,
            Opcode::ListClients => 0x001B,
            Opcode::DeleteClient => 0x001C,
            Opcode::AttestKey => 0x001E,
            Opcode::PrepareKeyAttestation => 0x001F,
            Opcode::CanDoCrypto => 0x0020,
        }
    }

    /// Look a numeric code up; an unknown code yields `None`.
    pub fn from_u16(code: u16) -> (r: Option<Opcode>)
        ensures
            r == Opcode::spec_from_code(code),
    {
        match code {
            0x0001 => Some(Opcode::Ping),
            0x0002 => Some(Opcode::PsaGenerateKey),
            0x0003 => Some(Opcode::PsaDestroyKey),
            0x0004 => Some(Opcode::PsaSignHash),
            0x0005 => Some(Opcode::PsaVerifyHash),
            0x0006 => Some(Opcode::PsaImportKey),
            0x0007 => Some(Opcode::PsaExportPublicKey),
            0x0008 => Some(Opcode::ListProviders),
            0x0009 => Some(Opcode::ListOpcodes),
            0x000A => Some(Opcode::PsaAsymmetricEncrypt),
            0x000B => Some(Opcode::PsaAsymmetricDecrypt),
            0x000C => Some(Opcode::PsaExportKey),
            0x000D => Some(Opcode::PsaGenerateRandom),
            0x000E => Some(Opcode::ListAuthenticators),
            0x000F => Some(Opcode::PsaHashCompute),
            0x0010 => Some(Opcode::PsaHashCompare),
            0x0011 => Some(Opcode::PsaAeadEncrypt),
            0x0012 => Some(Opcode::PsaAeadDecrypt),
            0x0013 => Some(Opcode::PsaRawKeyAgreement),
            0x0014 => Some(Opcode::PsaCipherEncrypt),
            0x0015 => Some(Opcode::PsaCipherDecrypt),
            0x0016 => Some(Opcode::PsaMacCompute),
            0x0017 => Some(Opcode::PsaMacVerify),
            0x0018 => Some(Opcode::PsaSignMessage),
            0x0019 => Some(Opcode::PsaVerifyMessage),
            0x001A => Some(Opcode::ListKeys),
            0x001B => Some(Opcode::ListClients),
            0x001C => Some(Opcode::DeleteClient),
            0x001E => Some(Opcode::AttestKey),
            0x001F => Some(Opcode::PrepareKeyAttestation),
            0x0020 => Some(Opcode::CanDoCrypto),
            _ => None,
        }
    }
}

/// Every opcode's numeric code looks back up to that opcode: the numeric
/// codes are unique, so the opcode-to-code mapping is a bijection onto the
/// known code set.
pub proof fn lemma_opcode_code_bijective()
    ensures
        forall|op: Opcode| Opcode::spec_from_code(#[trigger] op.spec_code()) == Some(op),
        forall|a: Opcode, b: Opcode| a.spec_code() == b.spec_code() ==> a == b,
{
}

/// Identifier of the service-side provider a response came from.
#[derive(Copy, Clone, Debug, PartialEq, Eq, Structural)]
pub enum ProviderID {
    /// Provider to use for core operations, such as the ping operation.
    Core,
    /// Provider using Mbed Crypto software implementations.
    MbedCrypto,
    /// Provider using a PKCS 11 compatible library.
    Pkcs11,
    /// Provider using a TSS 2.0 compliant software stack.
    Tpm,
    /// Provider using the CryptoAuthentication library.
    CryptoAuthLib,
    /// Provider using a trusted service running in a secure world.
    TrustedService,
}

impl ProviderID {
    /// Numeric code of the provider identifier on the wire.
    pub open spec fn spec_code(self) -> u8 {
        match self {
            ProviderID::Core => 0,
            ProviderID::MbedCrypto => 1,
            ProviderID::Pkcs11 => 2,
            ProviderID::Tpm => 3,
            ProviderID::CryptoAuthLib => 4,
            ProviderID::TrustedService => 5,
        }
    }

    /// The provider a numeric code stands for, if the code is a known one.
    pub open spec fn spec_from_code(code: u8) -> Option<ProviderID> {
        match code {
            0u8 => Some(ProviderID::Core),
            1u8 => Some(ProviderID::MbedCrypto),
            2u8 => Some(ProviderID::Pkcs11),
            3u8 => Some(ProviderID::Tpm),
            4u8 => Some(ProviderID::CryptoAuthLib),
            5u8 => Some(ProviderID::TrustedService),
            _ => None,
        }
    }

    /// Numeric code of the provider identifier on the wire.
    pub fn to_u8(self) -> (r: u8)
        ensures
            r == self.spec_code(),
    {
        match self {
            ProviderID::Core => 0,
            ProviderID::MbedCrypto => 1,
            ProviderID::Pkcs11 => 2,
            ProviderID::Tpm => 3,
            ProviderID::CryptoAuthLib => 4,
            ProviderID::TrustedService => 5,
        }
    }

    /// Look a numeric code up; an unknown code yields `None`.
    pub fn from_u8(code: u8) -> (r: Option<ProviderID>)
        ensures
            r == ProviderID::spec_from_code(code),
    {
        match code {
            0 => Some(ProviderID::Core),
            1 => Some(ProviderID::MbedCrypto),
            2 => Some(ProviderID::Pkcs11),
            3 => Some(ProviderID::Tpm),
            4 => Some(ProviderID::CryptoAuthLib),
            5 => Some(ProviderID::TrustedService),
            _ => None,
        }
    }
}

/// Tag naming which wire encoding a message body uses.
#[derive(Copy, Clone, Debug, PartialEq, Eq, Structural)]
pub enum BodyType {
    /// The body is encoded with protobuf.
    Protobuf,
}

impl BodyType {
    /// Numeric code of the content type on the wire.
    pub open spec fn spec_code(self) -> u8 {
        match self {
            BodyType::Protobuf => 0,
        }
    }

    /// The content type a numeric code stands for, if the code is a known
    /// one.
    pub open spec fn spec_from_code(code: u8) -> Option<BodyType> {
        if code == 0 {
            Some(BodyType::Protobuf)
        } else {
            None
        }
    }

    /// Numeric code of the content type on the wire.
    pub fn to_u8(self) -> (r: u8)
        ensures
            r == self.spec_code(),
    {
        match self {
            BodyType::Protobuf => 0,
        }
    }

    /// Look a numeric code up; an unknown code yields `None`.
    pub fn from_u8(code: u8) -> (r: Option<BodyType>)
        ensures
            r == BodyType::spec_from_code(code),
    {
        if code == 0 {
            Some(BodyType::Protobuf)
        } else {
            None
        }
    }
}

/// Status of a request, returned as part of every response header.
///
/// `Success` reports a successful operation; every other variant is one
/// error kind of the protocol layer or of the cryptographic service behind
/// it.
#[derive(Copy, Clone, Debug, PartialEq, Eq, Structural)]
pub enum ResponseStatus {
    /// Successful operation
    Success,
    /// Requested provider ID does not match that of the backend
    WrongProviderID,
    /// Requested content type is not supported by the backend
    ContentTypeNotSupported,
    /// Requested accept type is not supported by the backend
    AcceptTypeNotSupported,
    /// Requested version is not supported by the backend
    WireProtocolVersionNotSupported,
    /// No provider registered for the requested provider ID
    ProviderNotRegistered,
    /// No provider defined for requested provider ID
    ProviderDoesNotExist,
    /// Failed to deserialize the body of the message
    DeserializingBodyFailed,
    /// Failed to serialize the body of the message
    SerializingBodyFailed,
    /// Requested operation is not defined
    OpcodeDoesNotExist,
    /// Response size exceeds allowed limits
    ResponseTooLarge,
    /// Authentication failed
    AuthenticationError,
    /// Authenticator not supported
    AuthenticatorDoesNotExist,
    /// Authenticator not supported
    AuthenticatorNotRegistered,
    /// Internal error in the Key Info Manager
    KeyInfoManagerError,
    /// Generic input/output error
    ConnectionError,
    /// Invalid value for this data type
    InvalidEncoding,
    /// Constant fields in header are invalid
    InvalidHeader,
    /// The UUID vector needs to only contain 16 bytes
    WrongProviderUuid,
    /// Request did not provide a required authentication
    NotAuthenticated,
    /// Request length specified in the header is above defined limit
    BodySizeExceedsLimit,
    /// The operation requires admin privilege
    AdminOperation,
    /// An error occurred that does not correspond to any defined failure cause
    PsaErrorGenericError,
    /// The requested action is denied by a policy
    PsaErrorNotPermitted,
    /// The requested operation or a parameter is not supported by this implementation
    PsaErrorNotSupported,
    /// The parameters passed to the function are invalid
    PsaErrorInvalidArgument,
}

impl ResponseStatus {
    /// Numeric code of the status on the wire.
    pub open spec fn spec_code(self) -> u16 {
        match self {
            ResponseStatus::Success => 0,
            ResponseStatus::WrongProviderID => 1,
            ResponseStatus::ContentTypeNotSupported => 2,
            ResponseStatus::AcceptTypeNotSupported => 3,
            ResponseStatus::WireProtocolVersionNotSupported => 4,
            ResponseStatus::ProviderNotRegistered => 5,
            ResponseStatus::ProviderDoesNotExist => 6,
            ResponseStatus::DeserializingBodyFailed => 7,
            ResponseStatus::SerializingBodyFailed => 8,
            ResponseStatus::OpcodeDoesNotExist => 9,
            ResponseStatus::ResponseTooLarge => 10,
            ResponseStatus::AuthenticationError => 11,
            ResponseStatus::AuthenticatorDoesNotExist => 12,
            ResponseStatus::AuthenticatorNotRegistered => 13,
            ResponseStatus::KeyInfoManagerError => 14,
            ResponseStatus::ConnectionError => 15,
            ResponseStatus::InvalidEncoding => 16,
            ResponseStatus::InvalidHeader => 17,
            ResponseStatus::WrongProviderUuid => 18,
            ResponseStatus::NotAuthenticated => 19,
            ResponseStatus::BodySizeExceedsLimit => 20,
            ResponseStatus::AdminOperation => 21,
            ResponseStatus::PsaErrorGenericError => 1132,
            ResponseStatus::PsaErrorNotPermitted => 1133,
            ResponseStatus::PsaErrorNotSupported => 1134,
            ResponseStatus::PsaErrorInvalidArgument => 1135,
        }
    }

    /// The status a numeric code stands for, if the code is a known one.
    pub open spec fn spec_from_code(code: u16) -> Option<ResponseStatus> {
        match code {
            0u16 => Some(ResponseStatus::Success),
            1u16 => Some(ResponseStatus::WrongProviderID),
            2u16 => Some(ResponseStatus::ContentTypeNotSupported),
            3u16 => Some(ResponseStatus::AcceptTypeNotSupported),
            4u16 => Some(ResponseStatus::WireProtocolVersionNotSupported),
            5u16 => Some(ResponseStatus::ProviderNotRegistered),
            6u16 => Some(ResponseStatus::ProviderDoesNotExist),
            7u16 => Some(ResponseStatus::DeserializingBodyFailed),
            8u16 => Some(ResponseStatus::SerializingBodyFailed),
            9u16 => Some(ResponseStatus::OpcodeDoesNotExist),
            10u16 => Some(ResponseStatus::ResponseTooLarge),
            11u16 => Some(ResponseStatus::AuthenticationError),
            12u16 => Some(ResponseStatus::AuthenticatorDoesNotExist),
            13u16 => Some(ResponseStatus::AuthenticatorNotRegistered),
            14u16 => Some(ResponseStatus::KeyInfoManagerError),
            15u16 => Some(ResponseStatus::ConnectionError),
            16u16 => Some(ResponseStatus::InvalidEncoding),
            17u16 => Some(ResponseStatus::InvalidHeader),
            18u16 => Some(ResponseStatus::WrongProviderUuid),
            19u16 => Some(ResponseStatus::NotAuthenticated),
            20u16 => Some(ResponseStatus::BodySizeExceedsLimit),
            21u16 => Some(ResponseStatus::AdminOperation),
            1132u16 => Some(ResponseStatus::PsaErrorGenericError),
            1133u16 => Some(ResponseStatus::PsaErrorNotPermitted),
            1134u16 => Some(ResponseStatus::PsaErrorNotSupported),
            1135u16 => Some(ResponseStatus::PsaErrorInvalidArgument),
            _ => None,
        }
    }

    /// Numeric code of the status on the wire.
    pub fn to_u16(self) -> (r: u16)
        ensures
            r == self.spec_code(),
    {
        match self {
            ResponseStatus::Success => 0,
            ResponseStatus::WrongProviderID => 1,
            ResponseStatus::ContentTypeNotSupported => 2,
            ResponseStatus::AcceptTypeNotSupported => 3,
            ResponseStatus::WireProtocolVersionNotSupported => 4,
            ResponseStatus::ProviderNotRegistered => 5,
            ResponseStatus::ProviderDoesNotExist => 6,
            ResponseStatus::DeserializingBodyFailed => 7,
            ResponseStatus::SerializingBodyFailed => 8,
            ResponseStatus::OpcodeDoesNotExist => 9,
            ResponseStatus::ResponseTooLarge => 10,
            ResponseStatus::AuthenticationError => 11,
            ResponseStatus::AuthenticatorDoesNotExist => 12,
            ResponseStatus::AuthenticatorNotRegistered => 13,
            ResponseStatus::KeyInfoManagerError => 14,
            ResponseStatus::ConnectionError => 15,
            ResponseStatus::InvalidEncoding => 16,
            ResponseStatus::InvalidHeader => 17,
            ResponseStatus::WrongProviderUuid => 18,
            ResponseStatus::NotAuthenticated => 19,
            ResponseStatus::BodySizeExceedsLimit => 20,
            ResponseStatus::AdminOperation => 21,
            ResponseStatus::PsaErrorGenericError => 1132,
            ResponseStatus::PsaErrorNotPermitted => 1133,
            ResponseStatus::PsaErrorNotSupported => 1134,
            ResponseStatus::PsaErrorInvalidArgument => 1135,
        }
    }

    /// Look a numeric code up; an unknown code yields `None`.
    pub fn from_u16(code: u16) -> (r: Option<ResponseStatus>)
        ensures
            r == ResponseStatus::spec_from_code(code),
    {
        match code {
            0 => Some(ResponseStatus::Success),
            1 => Some(ResponseStatus::WrongProviderID),
            2 => Some(ResponseStatus::ContentTypeNotSupported),
            3 => Some(ResponseStatus::AcceptTypeNotSupported),
            4 => Some(ResponseStatus::WireProtocolVersionNotSupported),
            5 => Some(ResponseStatus::ProviderNotRegistered),
            6 => Some(ResponseStatus::ProviderDoesNotExist),
            7 => Some(ResponseStatus::DeserializingBodyFailed),
            8 => Some(ResponseStatus::SerializingBodyFailed),
            9 => Some(ResponseStatus::OpcodeDoesNotExist),
            10 => Some(ResponseStatus::ResponseTooLarge),
            11 => Some(ResponseStatus::AuthenticationError),
            12 => Some(ResponseStatus::AuthenticatorDoesNotExist),
            13 => Some(ResponseStatus::AuthenticatorNotRegistered),
            14 => Some(ResponseStatus::KeyInfoManagerError),
            15 => Some(ResponseStatus::ConnectionError),
            16 => Some(ResponseStatus::InvalidEncoding),
            17 => Some(ResponseStatus::InvalidHeader),
            18 => Some(ResponseStatus::WrongProviderUuid),
            19 => Some(ResponseStatus::NotAuthenticated),
            20 => Some(ResponseStatus::BodySizeExceedsLimit),
            21 => Some(ResponseStatus::AdminOperation),
            1132 => Some(ResponseStatus::PsaErrorGenericError),
            1133 => Some(ResponseStatus::PsaErrorNotPermitted),
            1134 => Some(ResponseStatus::PsaErrorNotSupported),
            1135 => Some(ResponseStatus::PsaErrorInvalidArgument),
            _ => None,
        }
    }
}

/// Container for the bytes of a request body.
pub struct RequestBody {
    bytes: Vec<u8>,
}

impl View for RequestBody {
    type V = Seq<u8>;

    closed spec fn view(&self) -> Seq<u8> {
        self.bytes@
    }
}

impl RequestBody {
    /// Wrap the given bytes as a request body.
    pub fn from_bytes(bytes: Vec<u8>) -> (r: RequestBody)
        ensures
            r@ == bytes@,
    {
        RequestBody { bytes }
    }

    /// The bytes of the body.
    pub fn bytes(&self) -> (r: &Vec<u8>)
        ensures
            r@ == self@,
    {
        &self.bytes
    }

    /// Number of bytes in the body.
    pub fn len(&self) -> (r: usize)
        ensures
            r == self@.len(),
    {
        self.bytes.len()
    }
}

/// Container for the bytes of a response body.
pub struct ResponseBody {
    bytes: Vec<u8>,
}

impl View for ResponseBody {
    type V = Seq<u8>;

    closed spec fn view(&self) -> Seq<u8> {
        self.bytes@
    }
}

impl ResponseBody {
    /// Wrap the given bytes as a response body.
    pub fn from_bytes(bytes: Vec<u8>) -> (r: ResponseBody)
        ensures
            r@ == bytes@,
    {
        ResponseBody { bytes }
    }

    /// The bytes of the body.
    pub fn bytes(&self) -> (r: &Vec<u8>)
        ensures
            r@ == self@,
    {
        &self.bytes
    }

    /// Number of bytes in the body.
    pub fn len(&self) -> (r: usize)
        ensures
            r == self@.len(),
    {
        self.bytes.len()
    }
}

} // verus!
