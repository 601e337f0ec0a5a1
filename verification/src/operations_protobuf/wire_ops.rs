//! Wire-message records.
//!
//! One record per protobuf message of the wire schema, shaped exactly like
//! the schema: a `oneof` union becomes an `Option` of a variant enum (the
//! discriminant itself is a mandatory field, so `None` there is invalid
//! wire input for the decoder to reject), an enumeration field is carried
//! as its raw `i32` code, and a nested message is an `Option` of its
//! record.

use vstd::prelude::*;

verus! {

/// Wire message for an HMAC algorithm; the hash is an enumeration code.
#[derive(Copy, Clone, Debug, PartialEq, Eq, Structural)]
pub struct Hmac {
    /// Code of the hash algorithm to use.
    pub hash_alg: i32,
}

/// Wire message for the CBC-MAC construction; it has no fields.
#[derive(Copy, Clone, Debug, PartialEq, Eq, Structural)]
pub struct CbcMac {
}

/// Wire message for the CMAC construction; it has no fields.
#[derive(Copy, Clone, Debug, PartialEq, Eq, Structural)]
pub struct Cmac {
}

/// Discriminant of a full-length MAC wire message.
#[derive(Copy, Clone, Debug, PartialEq, Eq, Structural)]
pub enum FullLengthVariant {
    /// HMAC algorithm
    Hmac(Hmac),
    /// The CBC-MAC construction over a block cipher.
    CbcMac(CbcMac),
    /// The CMAC construction over a block cipher.
    Cmac(Cmac),
}

/// Wire message for an untruncated MAC algorithm.
#[derive(Copy, Clone, Debug, PartialEq, Eq, Structural)]
pub struct FullLength {
    /// The mandatory discriminant.
    pub variant: Option<FullLengthVariant>,
}

/// Wire message for a truncated MAC algorithm.
#[derive(Copy, Clone, Debug, PartialEq, Eq, Structural)]
pub struct Truncated {
    /// The MAC algorithm to truncate (mandatory).
    pub mac_alg: Option<FullLength>,
    /// Desired length of the truncated MAC, as a fixed-width integer.
    pub mac_length: u32,
}

/// Discriminant of a MAC wire message.
#[derive(Copy, Clone, Debug, PartialEq, Eq, Structural)]
pub enum MacVariant {
    /// Untruncated MAC algorithm
    FullLength(FullLength),
    /// Truncated MAC algorithm
    Truncated(Truncated),
}

/// Wire message for a MAC algorithm.
#[derive(Copy, Clone, Debug, PartialEq, Eq, Structural)]
pub struct Mac {
    /// The mandatory discriminant.
    pub variant: Option<MacVariant>,
}

/// Wire message for the hash-and-sign wildcard; it has no fields.
#[derive(Copy, Clone, Debug, PartialEq, Eq, Structural)]
pub struct SignHashAny {
}

/// Discriminant of a sign-hash wire message.
#[derive(Copy, Clone, Debug, PartialEq, Eq, Structural)]
pub enum SignHashVariant {
    /// Allow any hash algorithm (policies only).
    Any(SignHashAny),
    /// A specific hash algorithm, as an enumeration code.
    Specific(i32),
}

/// Wire message for the hash used in a hash-and-sign algorithm.
#[derive(Copy, Clone, Debug, PartialEq, Eq, Structural)]
pub struct SignHash {
    /// The mandatory discriminant.
    pub variant: Option<SignHashVariant>,
}

/// Wire message for RSA PKCS#1 v1.5 signature with hashing.
#[derive(Copy, Clone, Debug, PartialEq, Eq, Structural)]
pub struct RsaPkcs1v15Sign {
    /// A hash algorithm to use (mandatory).
    pub hash_alg: Option<SignHash>,
}

/// Wire message for raw RSA PKCS#1 v1.5 signature; it has no fields.
#[derive(Copy, Clone, Debug, PartialEq, Eq, Structural)]
pub struct RsaPkcs1v15SignRaw {
}

/// Wire message for RSA PSS signature with hashing.
#[derive(Copy, Clone, Debug, PartialEq, Eq, Structural)]
pub struct RsaPss {
    /// A hash algorithm to use (mandatory).
    pub hash_alg: Option<SignHash>,
}

/// Wire message for ECDSA signature with hashing.
#[derive(Copy, Clone, Debug, PartialEq, Eq, Structural)]
pub struct Ecdsa {
    /// A hash algorithm to use (mandatory).
    pub hash_alg: Option<SignHash>,
}

/// Wire message for ECDSA signature without hashing; it has no fields.
#[derive(Copy, Clone, Debug, PartialEq, Eq, Structural)]
pub struct EcdsaAny {
}

/// Wire message for deterministic ECDSA signature with hashing.
#[derive(Copy, Clone, Debug, PartialEq, Eq, Structural)]
pub struct DeterministicEcdsa {
    /// A hash algorithm to use (mandatory).
    pub hash_alg: Option<SignHash>,
}

/// Discriminant of an asymmetric-signature wire message.
#[derive(Copy, Clone, Debug, PartialEq, Eq, Structural)]
pub enum AsymmetricSignatureVariant {
    /// RSA PKCS#1 v1.5 signature with hashing.
    RsaPkcs1v15Sign(RsaPkcs1v15Sign),
    /// Raw PKCS#1 v1.5 signature.
    RsaPkcs1v15SignRaw(RsaPkcs1v15SignRaw),
    /// RSA PSS signature with hashing.
    RsaPss(RsaPss),
    /// ECDSA signature with hashing.
    Ecdsa(Ecdsa),
    /// ECDSA signature without hashing.
    EcdsaAny(EcdsaAny),
    /// Deterministic ECDSA signature with hashing.
    DeterministicEcdsa(DeterministicEcdsa),
}

/// Wire message for an asymmetric signature algorithm.
#[derive(Copy, Clone, Debug, PartialEq, Eq, Structural)]
pub struct AsymmetricSignature {
    /// The mandatory discriminant.
    pub variant: Option<AsymmetricSignatureVariant>,
}

/// Wire message for RSA PKCS#1 v1.5 encryption; it has no fields.
#[derive(Copy, Clone, Debug, PartialEq, Eq, Structural)]
pub struct RsaPkcs1v15Crypt {
}

/// Wire message for RSA OAEP encryption; the hash is an enumeration code.
#[derive(Copy, Clone, Debug, PartialEq, Eq, Structural)]
pub struct RsaOaep {
    /// Code of the hash algorithm to use.
    pub hash_alg: i32,
}

/// Discriminant of an asymmetric-encryption wire message.
#[derive(Copy, Clone, Debug, PartialEq, Eq, Structural)]
pub enum AsymmetricEncryptionVariant {
    /// RSA PKCS#1 v1.5 encryption.
    RsaPkcs1v15Crypt(RsaPkcs1v15Crypt),
    /// RSA OAEP encryption.
    RsaOaep(RsaOaep),
}

/// Wire message for an asymmetric encryption algorithm.
#[derive(Copy, Clone, Debug, PartialEq, Eq, Structural)]
pub struct AsymmetricEncryption {
    /// The mandatory discriminant.
    pub variant: Option<AsymmetricEncryptionVariant>,
}

/// Wire message for an AEAD algorithm with a shortened tag.
#[derive(Copy, Clone, Debug, PartialEq, Eq, Structural)]
pub struct AeadWithShortenedTag {
    /// Code of the AEAD algorithm to truncate.
    pub aead_alg: i32,
    /// Desired length of the authentication tag, as a fixed-width integer.
    pub tag_length: u32,
}

/// Discriminant of an AEAD wire message.
#[derive(Copy, Clone, Debug, PartialEq, Eq, Structural)]
pub enum AeadVariant {
    /// AEAD algorithm with a default length tag, as an enumeration code.
    AeadWithDefaultLengthTag(i32),
    /// AEAD algorithm with a shortened tag.
    AeadWithShortenedTag(AeadWithShortenedTag),
}

/// Wire message for an AEAD algorithm.
#[derive(Copy, Clone, Debug, PartialEq, Eq, Structural)]
pub struct Aead {
    /// The mandatory discriminant.
    pub variant: Option<AeadVariant>,
}

/// Wire message for a key agreement combined with a key derivation.
#[derive(Copy, Clone, Debug, PartialEq, Eq, Structural)]
pub struct WithKeyDerivation {
    /// Code of the raw key agreement algorithm.
    pub ka_alg: i32,
    /// The key derivation to apply to the shared secret (mandatory).
    pub kdf_alg: Option<KeyDerivation>,
}

/// Discriminant of a key-agreement wire message.
#[derive(Copy, Clone, Debug, PartialEq, Eq, Structural)]
pub enum KeyAgreementVariant {
    /// A raw key agreement algorithm, as an enumeration code.
    Raw(i32),
    /// A key agreement algorithm combined with a key derivation algorithm.
    WithKeyDerivation(WithKeyDerivation),
}

/// Wire message for a key agreement algorithm.
#[derive(Copy, Clone, Debug, PartialEq, Eq, Structural)]
pub struct KeyAgreement {
    /// The mandatory discriminant.
    pub variant: Option<KeyAgreementVariant>,
}

/// Wire message for the HKDF algorithm; the hash is an enumeration code.
#[derive(Copy, Clone, Debug, PartialEq, Eq, Structural)]
pub struct Hkdf {
    /// Code of the hash algorithm to use.
    pub hash_alg: i32,
}

/// Wire message for the TLS-1.2 PRF algorithm.
#[derive(Copy, Clone, Debug, PartialEq, Eq, Structural)]
pub struct Tls12Prf {
    /// Code of the hash algorithm to use.
    pub hash_alg: i32,
}

/// Wire message for the TLS-1.2 PSK-to-MasterSecret algorithm.
#[derive(Copy, Clone, Debug, PartialEq, Eq, Structural)]
pub struct Tls12PskToMs {
    /// Code of the hash algorithm to use.
    pub hash_alg: i32,
}

/// Discriminant of a key-derivation wire message.
#[derive(Copy, Clone, Debug, PartialEq, Eq, Structural)]
pub enum KeyDerivationVariant {
    /// HKDF algorithm.
    Hkdf(Hkdf),
    /// TLS-1.2 PRF algorithm.
    Tls12Prf(Tls12Prf),
    /// TLS-1.2 PSK-to-MasterSecret algorithm.
    Tls12PskToMs(Tls12PskToMs),
}

/// Wire message for a key derivation algorithm.
#[derive(Copy, Clone, Debug, PartialEq, Eq, Structural)]
pub struct KeyDerivation {
    /// The mandatory discriminant.
    pub variant: Option<KeyDerivationVariant>,
}

/// Wire message standing for "no algorithm"; it has no fields.
#[derive(Copy, Clone, Debug, PartialEq, Eq, Structural)]
pub struct NoAlgorithm {
}

/// Discriminant of a top-level algorithm wire message.
#[derive(Copy, Clone, Debug, PartialEq, Eq, Structural)]
pub enum AlgorithmVariant {
    /// No algorithm: explicitly representable, unlike an absent discriminant.
    NoAlgorithm(NoAlgorithm),
    /// Hash algorithm, as an enumeration code.
    Hash(i32),
    /// MAC algorithm.
    Mac(Mac),
    /// Symmetric cipher algorithm, as an enumeration code.
    Cipher(i32),
    /// AEAD algorithm.
    Aead(Aead),
    /// Public-key signature algorithm.
    AsymmetricSignature(AsymmetricSignature),
    /// Public-key encryption algorithm.
    AsymmetricEncryption(AsymmetricEncryption),
    /// Key agreement algorithm.
    KeyAgreement(KeyAgreement),
    /// Key derivation algorithm.
    KeyDerivation(KeyDerivation),
}

/// Wire message for a top-level algorithm descriptor.
#[derive(Copy, Clone, Debug, PartialEq, Eq, Structural)]
pub struct Algorithm {
    /// The mandatory discriminant.
    pub variant: Option<AlgorithmVariant>,
}

/// Wire message for a MAC compute operation.
#[derive(Clone, Debug, PartialEq, Eq)]
pub struct MacComputeOperation {
    /// Name of the key to use.
    pub key_name: String,
    /// The MAC algorithm to compute (mandatory).
    pub alg: Option<Mac>,
    /// The input to generate a MAC value from.
    pub input: Vec<u8>,
}

/// Mathematical view of a MAC compute operation wire message.
pub ghost struct MacComputeOperationView {
    /// The key name as a character sequence.
    pub key_name: Seq<char>,
    /// The MAC algorithm (mandatory).
    pub alg: Option<Mac>,
    /// The bytes of the input.
    pub input: Seq<u8>,
}

impl View for MacComputeOperation {
    type V = MacComputeOperationView;

    open spec fn view(&self) -> MacComputeOperationView {
        MacComputeOperationView { key_name: self.key_name@, alg: self.alg, input: self.input@ }
    }
}

impl Default for MacComputeOperation {
    /// An empty MAC compute operation message: every field at its default.
    fn default() -> (r: MacComputeOperation)
        ensures
            r@ == (MacComputeOperationView {
                key_name: Seq::<char>::empty(),
                alg: Option::<Mac>::None,
                input: Seq::<u8>::empty(),
            }),
    {
        MacComputeOperation { key_name: String::new(), alg: Option::None, input: Vec::new() }
    }
}

/// Wire message for a MAC compute result.
#[derive(Clone, Debug, PartialEq, Eq)]
pub struct MacComputeResult {
    /// The computed MAC value.
    pub mac: Vec<u8>,
}

/// Mathematical view of a MAC compute result wire message.
pub ghost struct MacComputeResultView {
    /// The bytes of the MAC value.
    pub mac: Seq<u8>,
}

impl View for MacComputeResult {
    type V = MacComputeResultView;

    open spec fn view(&self) -> MacComputeResultView {
        MacComputeResultView { mac: self.mac@ }
    }
}

impl Default for MacComputeResult {
    /// An empty MAC compute result message.
    fn default() -> (r: MacComputeResult)
        ensures
            r@ == (MacComputeResultView { mac: Seq::<u8>::empty() }),
    {
        MacComputeResult { mac: Vec::new() }
    }
}

/// Wire message for a MAC verify operation.
#[derive(Clone, Debug, PartialEq, Eq)]
pub struct MacVerifyOperation {
    /// Name of the key to use.
    pub key_name: String,
    /// The MAC algorithm to compute (mandatory).
    pub alg: Option<Mac>,
    /// The input to generate a MAC value from.
    pub input: Vec<u8>,
    /// The reference MAC value.
    pub mac: Vec<u8>,
}

/// Mathematical view of a MAC verify operation wire message.
pub ghost struct MacVerifyOperationView {
    /// The key name as a character sequence.
    pub key_name: Seq<char>,
    /// The MAC algorithm (mandatory).
    pub alg: Option<Mac>,
    /// The bytes of the input.
    pub input: Seq<u8>,
    /// The bytes of the reference MAC value.
    pub mac: Seq<u8>,
}

impl View for MacVerifyOperation {
    type V = MacVerifyOperationView;

    open spec fn view(&self) -> MacVerifyOperationView {
        MacVerifyOperationView {
            key_name: self.key_name@,
            alg: self.alg,
            input: self.input@,
            mac: self.mac@,
        }
    }
}

impl Default for MacVerifyOperation {
    /// An empty MAC verify operation message: every field at its default.
    fn default() -> (r: MacVerifyOperation)
        ensures
            r@ == (MacVerifyOperationView {
                key_name: Seq::<char>::empty(),
                alg: Option::<Mac>::None,
                input: Seq::<u8>::empty(),
                mac: Seq::<u8>::empty(),
            }),
    {
        MacVerifyOperation {
            key_name: String::new(),
            alg: Option::None,
            input: Vec::new(),
            mac: Vec::new(),
        }
    }
}

/// Wire message for a MAC verify result; it has no fields.
#[derive(Copy, Clone, Debug, PartialEq, Eq, Structural)]
pub struct MacVerifyResult {
}

} // verus!
