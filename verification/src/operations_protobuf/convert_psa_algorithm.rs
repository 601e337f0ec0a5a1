//! Conversions between native algorithm descriptors and their wire-message
//! form, at every nesting level.
//!
//! The rules are applied uniformly at each level:
//! - a wire enumeration value of "unspecified" (code zero) used where a
//!   concrete algorithm is mandatory fails decoding with `InvalidEncoding`,
//!   and is never treated as a default; so does any unknown enumeration
//!   code;
//! - a wire message whose `oneof` discriminant is absent fails decoding
//!   with `InvalidEncoding`, because the discriminant itself is mandatory;
//! - native length fields are platform-width unsigned integers and travel
//!   as fixed 32-bit unsigned integers; a value that does not fit fails
//!   encoding with `InvalidEncoding`.

use vstd::prelude::*;

use crate::operations_protobuf::wire_ops;
use crate::psa_algorithm;
use crate::psa_algorithm::{
    Aead, AeadWithDefaultLengthTag, Algorithm, AsymmetricEncryption, AsymmetricSignature, Cipher,
    FullLengthMac, KeyAgreement, KeyDerivation, Mac, RawKeyAgreement, SignHash,
};
use crate::requests::ResponseStatus;

verus! {

/// The hash algorithm a wire enumeration code decodes to: zero is the
/// mandatory-field "unspecified" value and is invalid, as is any unknown
/// code.
pub open spec fn spec_i32_to_hash(hash_val: i32) -> Result<psa_algorithm::Hash, ResponseStatus> {
    match hash_val {
        1i32 => Ok(psa_algorithm::Hash::Md2),
        2i32 => Ok(psa_algorithm::Hash::Md4),
        3i32 => Ok(psa_algorithm::Hash::Md5),
        4i32 => Ok(psa_algorithm::Hash::Ripemd160),
        5i32 => Ok(psa_algorithm::Hash::Sha1),
        6i32 => Ok(psa_algorithm::Hash::Sha224),
        7i32 => Ok(psa_algorithm::Hash::Sha256),
        8i32 => Ok(psa_algorithm::Hash::Sha384),
        9i32 => Ok(psa_algorithm::Hash::Sha512),
        10i32 => Ok(psa_algorithm::Hash::Sha512_224),
        11i32 => Ok(psa_algorithm::Hash::Sha512_256),
        12i32 => Ok(psa_algorithm::Hash::Sha3_224),
        13i32 => Ok(psa_algorithm::Hash::Sha3_256),
        14i32 => Ok(psa_algorithm::Hash::Sha3_384),
        15i32 => Ok(psa_algorithm::Hash::Sha3_512),
        _ => Err(ResponseStatus::InvalidEncoding),
    }
}

/// The wire enumeration code of a hash algorithm.
pub open spec fn spec_hash_to_i32(hash: psa_algorithm::Hash) -> i32 {
    match hash {
        psa_algorithm::Hash::Md2 => 1i32,
        psa_algorithm::Hash::Md4 => 2i32,
        psa_algorithm::Hash::Md5 => 3i32,
        psa_algorithm::Hash::Ripemd160 => 4i32,
        psa_algorithm::Hash::Sha1 => 5i32,
        psa_algorithm::Hash::Sha224 => 6i32,
        psa_algorithm::Hash::Sha256 => 7i32,
        psa_algorithm::Hash::Sha384 => 8i32,
        psa_algorithm::Hash::Sha512 => 9i32,
        psa_algorithm::Hash::Sha512_224 => 10i32,
        psa_algorithm::Hash::Sha512_256 => 11i32,
        psa_algorithm::Hash::Sha3_224 => 12i32,
        psa_algorithm::Hash::Sha3_256 => 13i32,
        psa_algorithm::Hash::Sha3_384 => 14i32,
        psa_algorithm::Hash::Sha3_512 => 15i32,
    }
}

/// Hash algorithms: from wire code to native.
///
/// # Errors
/// - `InvalidEncoding` if the code is zero (the "unspecified" value of the
///   enumeration is not allowed for a mandatory field) or unknown
pub fn i32_to_hash(hash_val: i32) -> (r: Result<psa_algorithm::Hash, ResponseStatus>)
    ensures
        r == spec_i32_to_hash(hash_val),
{
    match hash_val {
        1 => Ok(psa_algorithm::Hash::Md2),
        2 => Ok(psa_algorithm::Hash::Md4),
        3 => Ok(psa_algorithm::Hash::Md5),
        4 => Ok(psa_algorithm::Hash::Ripemd160),
        5 => Ok(psa_algorithm::Hash::Sha1),
        6 => Ok(psa_algorithm::Hash::Sha224),
        7 => Ok(psa_algorithm::Hash::Sha256),
        8 => Ok(psa_algorithm::Hash::Sha384),
        9 => Ok(psa_algorithm::Hash::Sha512),
        10 => Ok(psa_algorithm::Hash::Sha512_224),
        11 => Ok(psa_algorithm::Hash::Sha512_256),
        12 => Ok(psa_algorithm::Hash::Sha3_224),
        13 => Ok(psa_algorithm::Hash::Sha3_256),
        14 => Ok(psa_algorithm::Hash::Sha3_384),
        15 => Ok(psa_algorithm::Hash::Sha3_512),
        _ => Err(ResponseStatus::InvalidEncoding),
    }
}

/// Hash algorithms: from native to wire code.
pub fn hash_to_i32(hash: psa_algorithm::Hash) -> (r: i32)
    ensures
        r == spec_hash_to_i32(hash),
{
    match hash {
        psa_algorithm::Hash::Md2 => 1,
        psa_algorithm::Hash::Md4 => 2,
        psa_algorithm::Hash::Md5 => 3,
        psa_algorithm::Hash::Ripemd160 => 4,
        psa_algorithm::Hash::Sha1 => 5,
        psa_algorithm::Hash::Sha224 => 6,
        psa_algorithm::Hash::Sha256 => 7,
        psa_algorithm::Hash::Sha384 => 8,
        psa_algorithm::Hash::Sha512 => 9,
        psa_algorithm::Hash::Sha512_224 => 10,
        psa_algorithm::Hash::Sha512_256 => 11,
        psa_algorithm::Hash::Sha3_224 => 12,
        psa_algorithm::Hash::Sha3_256 => 13,
        psa_algorithm::Hash::Sha3_384 => 14,
        psa_algorithm::Hash::Sha3_512 => 15,
    }
}

/// Every hash code round-trips: encoding a hash and decoding the code
/// yields the hash back.
pub proof fn lemma_hash_i32_roundtrip(hash: psa_algorithm::Hash)
    ensures
        spec_i32_to_hash(spec_hash_to_i32(hash)) == Ok::<psa_algorithm::Hash, ResponseStatus>(hash),
{
}

/// The sign-hash value a wire message decodes to: an absent discriminant is
/// invalid, a specific hash code must itself decode.
pub open spec fn spec_sign_hash_from_proto(w: wire_ops::SignHash) -> Result<
    SignHash,
    ResponseStatus,
> {
    match w.variant {
        Option::None => Err(ResponseStatus::InvalidEncoding),
        Option::Some(wire_ops::SignHashVariant::Any(_)) => Ok(SignHash::Any),
        Option::Some(wire_ops::SignHashVariant::Specific(hash_val)) => match spec_i32_to_hash(
            hash_val,
        ) {
            Ok(hash) => Ok(SignHash::Specific(hash)),
            Err(e) => Err(e),
        },
    }
}

/// The wire message of a sign-hash value.
pub open spec fn spec_sign_hash_to_proto(sign_hash: SignHash) -> wire_ops::SignHash {
    match sign_hash {
        SignHash::Any => wire_ops::SignHash {
            variant: Option::Some(wire_ops::SignHashVariant::Any(wire_ops::SignHashAny {  })),
        },
        SignHash::Specific(hash) => wire_ops::SignHash {
            variant: Option::Some(wire_ops::SignHashVariant::Specific(spec_hash_to_i32(hash))),
        },
    }
}

/// SignHash: from wire message to native.
///
/// # Errors
/// - `InvalidEncoding` if the discriminant is absent or the hash code is
///   invalid
pub fn sign_hash_from_proto(w: wire_ops::SignHash) -> (r: Result<SignHash, ResponseStatus>)
    ensures
        r == spec_sign_hash_from_proto(w),
{
    match w.variant {
        Option::None => Err(ResponseStatus::InvalidEncoding),
        Option::Some(wire_ops::SignHashVariant::Any(_)) => Ok(SignHash::Any),
        Option::Some(wire_ops::SignHashVariant::Specific(hash_val)) => Ok(
            SignHash::Specific(i32_to_hash(hash_val)?),
        ),
    }
}

/// SignHash: from native to wire message.
pub fn sign_hash_to_proto(sign_hash: SignHash) -> (r: wire_ops::SignHash)
    ensures
        r == spec_sign_hash_to_proto(sign_hash),
{
    match sign_hash {
        SignHash::Any => wire_ops::SignHash {
            variant: Option::Some(wire_ops::SignHashVariant::Any(wire_ops::SignHashAny {  })),
        },
        SignHash::Specific(hash) => wire_ops::SignHash {
            variant: Option::Some(wire_ops::SignHashVariant::Specific(hash_to_i32(hash))),
        },
    }
}

/// The full-length MAC a wire message decodes to.
pub open spec fn spec_full_length_mac_from_proto(w: wire_ops::FullLength) -> Result<
    FullLengthMac,
    ResponseStatus,
> {
    match w.variant {
        Option::None => Err(ResponseStatus::InvalidEncoding),
        Option::Some(wire_ops::FullLengthVariant::Hmac(hmac)) => match spec_i32_to_hash(
            hmac.hash_alg,
        ) {
            Ok(hash_alg) => Ok(FullLengthMac::Hmac { hash_alg }),
            Err(e) => Err(e),
        },
        Option::Some(wire_ops::FullLengthVariant::CbcMac(_)) => Ok(FullLengthMac::CbcMac),
        Option::Some(wire_ops::FullLengthVariant::Cmac(_)) => Ok(FullLengthMac::Cmac),
    }
}

/// The wire message of a full-length MAC.
pub open spec fn spec_full_length_mac_to_proto(alg: FullLengthMac) -> wire_ops::FullLength {
    match alg {
        FullLengthMac::Hmac { hash_alg } => wire_ops::FullLength {
            variant: Option::Some(
                wire_ops::FullLengthVariant::Hmac(
                    wire_ops::Hmac { hash_alg: spec_hash_to_i32(hash_alg) },
                ),
            ),
        },
        FullLengthMac::CbcMac => wire_ops::FullLength {
            variant: Option::Some(wire_ops::FullLengthVariant::CbcMac(wire_ops::CbcMac {  })),
        },
        FullLengthMac::Cmac => wire_ops::FullLength {
            variant: Option::Some(wire_ops::FullLengthVariant::Cmac(wire_ops::Cmac {  })),
        },
    }
}

/// FullLengthMac algorithms: from wire message to native.
///
/// # Errors
/// - `InvalidEncoding` if the discriminant is absent or a nested hash code
///   is invalid
pub fn full_length_mac_from_proto(w: wire_ops::FullLength) -> (r: Result<
    FullLengthMac,
    ResponseStatus,
>)
    ensures
        r == spec_full_length_mac_from_proto(w),
{
    match w.variant {
        Option::None => Err(ResponseStatus::InvalidEncoding),
        Option::Some(wire_ops::FullLengthVariant::Hmac(hmac)) => Ok(
            FullLengthMac::Hmac { hash_alg: i32_to_hash(hmac.hash_alg)? },
        ),
        Option::Some(wire_ops::FullLengthVariant::CbcMac(_)) => Ok(FullLengthMac::CbcMac),
        Option::Some(wire_ops::FullLengthVariant::Cmac(_)) => Ok(FullLengthMac::Cmac),
    }
}

/// FullLengthMac algorithms: from native to wire message. This direction
/// never fails; the fallible signature matches the other levels.
pub fn full_length_mac_to_proto(alg: FullLengthMac) -> (r: Result<
    wire_ops::FullLength,
    ResponseStatus,
>)
    ensures
        r == Ok::<wire_ops::FullLength, ResponseStatus>(spec_full_length_mac_to_proto(alg)),
{
    match alg {
        FullLengthMac::Hmac { hash_alg } => Ok(
            wire_ops::FullLength {
                variant: Option::Some(
                    wire_ops::FullLengthVariant::Hmac(
                        wire_ops::Hmac { hash_alg: hash_to_i32(hash_alg) },
                    ),
                ),
            },
        ),
        FullLengthMac::CbcMac => Ok(
            wire_ops::FullLength {
                variant: Option::Some(wire_ops::FullLengthVariant::CbcMac(wire_ops::CbcMac {  })),
            },
        ),
        FullLengthMac::Cmac => Ok(
            wire_ops::FullLength {
                variant: Option::Some(wire_ops::FullLengthVariant::Cmac(wire_ops::Cmac {  })),
            },
        ),
    }
}

/// The MAC algorithm a wire message decodes to: the discriminant and, for
/// a truncated MAC, the nested algorithm are mandatory; the truncation
/// length travels as a fixed 32-bit integer.
pub open spec fn spec_mac_from_proto(w: wire_ops::Mac) -> Result<Mac, ResponseStatus> {
    match w.variant {
        Option::None => Err(ResponseStatus::InvalidEncoding),
        Option::Some(wire_ops::MacVariant::FullLength(full_length)) => match spec_full_length_mac_from_proto(
            full_length,
        ) {
            Ok(alg) => Ok(Mac::FullLength(alg)),
            Err(e) => Err(e),
        },
        Option::Some(wire_ops::MacVariant::Truncated(truncated)) => match truncated.mac_alg {
            Option::None => Err(ResponseStatus::InvalidEncoding),
            Option::Some(mac_alg_proto) => match spec_full_length_mac_from_proto(mac_alg_proto) {
                Ok(mac_alg) => Ok(
                    Mac::Truncated { mac_alg, mac_length: truncated.mac_length as usize },
                ),
                Err(e) => Err(e),
            },
        },
    }
}

/// The wire message of a MAC algorithm: fails when a truncation length
/// does not fit in 32 bits.
pub open spec fn spec_mac_to_proto(alg: Mac) -> Result<wire_ops::Mac, ResponseStatus> {
    match alg {
        Mac::FullLength(full_length_mac) => Ok(
            wire_ops::Mac {
                variant: Option::Some(
                    wire_ops::MacVariant::FullLength(
                        spec_full_length_mac_to_proto(full_length_mac),
                    ),
                ),
            },
        ),
        Mac::Truncated { mac_alg, mac_length } => if mac_length > u32::MAX {
            Err(ResponseStatus::InvalidEncoding)
        } else {
            Ok(
                wire_ops::Mac {
                    variant: Option::Some(
                        wire_ops::MacVariant::Truncated(
                            wire_ops::Truncated {
                                mac_alg: Option::Some(spec_full_length_mac_to_proto(mac_alg)),
                                mac_length: mac_length as u32,
                            },
                        ),
                    ),
                },
            )
        },
    }
}

/// Mac algorithms: from wire message to native.
///
/// # Errors
/// - `InvalidEncoding` if a mandatory discriminant or nested field is
///   absent, or a nested code is invalid
pub fn mac_from_proto(w: wire_ops::Mac) -> (r: Result<Mac, ResponseStatus>)
    ensures
        r == spec_mac_from_proto(w),
{
    match w.variant {
        Option::None => Err(ResponseStatus::InvalidEncoding),
        Option::Some(wire_ops::MacVariant::FullLength(full_length)) => Ok(
            Mac::FullLength(full_length_mac_from_proto(full_length)?),
        ),
        Option::Some(wire_ops::MacVariant::Truncated(truncated)) => match truncated.mac_alg {
            Option::None => Err(ResponseStatus::InvalidEncoding),
            Option::Some(mac_alg_proto) => Ok(
                Mac::Truncated {
                    mac_alg: full_length_mac_from_proto(mac_alg_proto)?,
                    mac_length: truncated.mac_length as usize,
                },
            ),
        },
    }
}

/// Mac algorithms: from native to wire message.
///
/// # Errors
/// - `InvalidEncoding` if the truncation length cannot be represented in
///   32 bits
pub fn mac_to_proto(alg: Mac) -> (r: Result<wire_ops::Mac, ResponseStatus>)
    ensures
        r == spec_mac_to_proto(alg),
{
    match alg {
        Mac::FullLength(full_length_mac) => Ok(
            wire_ops::Mac {
                variant: Option::Some(
                    wire_ops::MacVariant::FullLength(full_length_mac_to_proto(full_length_mac)?),
                ),
            },
        ),
        Mac::Truncated { mac_alg, mac_length } => {
            if mac_length > u32::MAX as usize {
                Err(ResponseStatus::InvalidEncoding)
            } else {
                Ok(
                    wire_ops::Mac {
                        variant: Option::Some(
                            wire_ops::MacVariant::Truncated(
                                wire_ops::Truncated {
                                    mac_alg: Option::Some(full_length_mac_to_proto(mac_alg)?),
                                    mac_length: mac_length as u32,
                                },
                            ),
                        ),
                    },
                )
            }
        },
    }
}

/// The cipher algorithm a wire enumeration code decodes to.
pub open spec fn spec_i32_to_cipher(cipher_val: i32) -> Result<Cipher, ResponseStatus> {
    match cipher_val {
        1i32 => Ok(Cipher::StreamCipher),
        2i32 => Ok(Cipher::Ctr),
        3i32 => Ok(Cipher::Cfb),
        4i32 => Ok(Cipher::Ofb),
        5i32 => Ok(Cipher::Xts),
        6i32 => Ok(Cipher::EcbNoPadding),
        7i32 => Ok(Cipher::CbcNoPadding),
        8i32 => Ok(Cipher::CbcPkcs7),
        _ => Err(ResponseStatus::InvalidEncoding),
    }
}

/// The wire enumeration code of a cipher algorithm.
pub open spec fn spec_cipher_to_i32(cipher: Cipher) -> i32 {
    match cipher {
        Cipher::StreamCipher => 1i32,
        Cipher::Ctr => 2i32,
        Cipher::Cfb => 3i32,
        Cipher::Ofb => 4i32,
        Cipher::Xts => 5i32,
        Cipher::EcbNoPadding => 6i32,
        Cipher::CbcNoPadding => 7i32,
        Cipher::CbcPkcs7 => 8i32,
    }
}

/// Cipher algorithms: from wire code to native.
///
/// # Errors
/// - `InvalidEncoding` if the code is zero (mandatory field) or unknown
pub fn i32_to_cipher(cipher_val: i32) -> (r: Result<Cipher, ResponseStatus>)
    ensures
        r == spec_i32_to_cipher(cipher_val),
{
    match cipher_val {
        1 => Ok(Cipher::StreamCipher),
        2 => Ok(Cipher::Ctr),
        3 => Ok(Cipher::Cfb),
        4 => Ok(Cipher::Ofb),
        5 => Ok(Cipher::Xts),
        6 => Ok(Cipher::EcbNoPadding),
        7 => Ok(Cipher::CbcNoPadding),
        8 => Ok(Cipher::CbcPkcs7),
        _ => Err(ResponseStatus::InvalidEncoding),
    }
}

/// Cipher algorithms: from native to wire code.
pub fn cipher_to_i32(cipher: Cipher) -> (r: i32)
    ensures
        r == spec_cipher_to_i32(cipher),
{
    match cipher {
        Cipher::StreamCipher => 1,
        Cipher::Ctr => 2,
        Cipher::Cfb => 3,
        Cipher::Ofb => 4,
        Cipher::Xts => 5,
        Cipher::EcbNoPadding => 6,
        Cipher::CbcNoPadding => 7,
        Cipher::CbcPkcs7 => 8,
    }
}

/// The default-length-tag AEAD algorithm a wire enumeration code decodes
/// to.
pub open spec fn spec_i32_to_aead_with_default_length_tag(aead_val: i32) -> Result<
    AeadWithDefaultLengthTag,
    ResponseStatus,
> {
    match aead_val {
        1i32 => Ok(AeadWithDefaultLengthTag::Ccm),
        2i32 => Ok(AeadWithDefaultLengthTag::Gcm),
        3i32 => Ok(AeadWithDefaultLengthTag::Chacha20Poly1305),
        _ => Err(ResponseStatus::InvalidEncoding),
    }
}

/// The wire enumeration code of a default-length-tag AEAD algorithm.
pub open spec fn spec_aead_with_default_length_tag_to_i32(aead: AeadWithDefaultLengthTag) -> i32 {
    match aead {
        AeadWithDefaultLengthTag::Ccm => 1i32,
        AeadWithDefaultLengthTag::Gcm => 2i32,
        AeadWithDefaultLengthTag::Chacha20Poly1305 => 3i32,
    }
}

/// AeadWithDefaultLengthTag algorithms: from wire code to native.
///
/// # Errors
/// - `InvalidEncoding` if the code is zero (mandatory field) or unknown
pub fn i32_to_aead_with_default_length_tag(aead_val: i32) -> (r: Result<
    AeadWithDefaultLengthTag,
    ResponseStatus,
>)
    ensures
        r == spec_i32_to_aead_with_default_length_tag(aead_val),
{
    match aead_val {
        1 => Ok(AeadWithDefaultLengthTag::Ccm),
        2 => Ok(AeadWithDefaultLengthTag::Gcm),
        3 => Ok(AeadWithDefaultLengthTag::Chacha20Poly1305),
        _ => Err(ResponseStatus::InvalidEncoding),
    }
}

/// AeadWithDefaultLengthTag algorithms: from native to wire code.
pub fn aead_with_default_length_tag_to_i32(aead: AeadWithDefaultLengthTag) -> (r: i32)
    ensures
        r == spec_aead_with_default_length_tag_to_i32(aead),
{
    match aead {
        AeadWithDefaultLengthTag::Ccm => 1,
        AeadWithDefaultLengthTag::Gcm => 2,
        AeadWithDefaultLengthTag::Chacha20Poly1305 => 3,
    }
}

/// The AEAD algorithm a wire message decodes to.
pub open spec fn spec_aead_from_proto(w: wire_ops::Aead) -> Result<Aead, ResponseStatus> {
    match w.variant {
        Option::None => Err(ResponseStatus::InvalidEncoding),
        Option::Some(wire_ops::AeadVariant::AeadWithDefaultLengthTag(aead_val)) => match spec_i32_to_aead_with_default_length_tag(
            aead_val,
        ) {
            Ok(aead) => Ok(Aead::AeadWithDefaultLengthTag(aead)),
            Err(e) => Err(e),
        },
        Option::Some(wire_ops::AeadVariant::AeadWithShortenedTag(shortened)) => match spec_i32_to_aead_with_default_length_tag(
            shortened.aead_alg,
        ) {
            Ok(aead_alg) => Ok(
                Aead::AeadWithShortenedTag {
                    aead_alg,
                    tag_length: shortened.tag_length as usize,
                },
            ),
            Err(e) => Err(e),
        },
    }
}

/// The wire message of an AEAD algorithm: fails when a tag length does not
/// fit in 32 bits.
pub open spec fn spec_aead_to_proto(alg: Aead) -> Result<wire_ops::Aead, ResponseStatus> {
    match alg {
        Aead::AeadWithDefaultLengthTag(aead) => Ok(
            wire_ops::Aead {
                variant: Option::Some(
                    wire_ops::AeadVariant::AeadWithDefaultLengthTag(
                        spec_aead_with_default_length_tag_to_i32(aead),
                    ),
                ),
            },
        ),
        Aead::AeadWithShortenedTag { aead_alg, tag_length } => if tag_length > u32::MAX {
            Err(ResponseStatus::InvalidEncoding)
        } else {
            Ok(
                wire_ops::Aead {
                    variant: Option::Some(
                        wire_ops::AeadVariant::AeadWithShortenedTag(
                            wire_ops::AeadWithShortenedTag {
                                aead_alg: spec_aead_with_default_length_tag_to_i32(aead_alg),
                                tag_length: tag_length as u32,
                            },
                        ),
                    ),
                },
            )
        },
    }
}

/// Aead algorithms: from wire message to native.
///
/// # Errors
/// - `InvalidEncoding` if the discriminant is absent or a nested code is
///   invalid
pub fn aead_from_proto(w: wire_ops::Aead) -> (r: Result<Aead, ResponseStatus>)
    ensures
        r == spec_aead_from_proto(w),
{
    match w.variant {
        Option::None => Err(ResponseStatus::InvalidEncoding),
        Option::Some(wire_ops::AeadVariant::AeadWithDefaultLengthTag(aead_val)) => Ok(
            Aead::AeadWithDefaultLengthTag(i32_to_aead_with_default_length_tag(aead_val)?),
        ),
        Option::Some(wire_ops::AeadVariant::AeadWithShortenedTag(shortened)) => Ok(
            Aead::AeadWithShortenedTag {
                aead_alg: i32_to_aead_with_default_length_tag(shortened.aead_alg)?,
                tag_length: shortened.tag_length as usize,
            },
        ),
    }
}

/// Aead algorithms: from native to wire message.
///
/// # Errors
/// - `InvalidEncoding` if the tag length cannot be represented in 32 bits
pub fn aead_to_proto(alg: Aead) -> (r: Result<wire_ops::Aead, ResponseStatus>)
    ensures
        r == spec_aead_to_proto(alg),
{
    match alg {
        Aead::AeadWithDefaultLengthTag(aead) => Ok(
            wire_ops::Aead {
                variant: Option::Some(
                    wire_ops::AeadVariant::AeadWithDefaultLengthTag(
                        aead_with_default_length_tag_to_i32(aead),
                    ),
                ),
            },
        ),
        Aead::AeadWithShortenedTag { aead_alg, tag_length } => {
            if tag_length > u32::MAX as usize {
                Err(ResponseStatus::InvalidEncoding)
            } else {
                Ok(
                    wire_ops::Aead {
                        variant: Option::Some(
                            wire_ops::AeadVariant::AeadWithShortenedTag(
                                wire_ops::AeadWithShortenedTag {
                                    aead_alg: aead_with_default_length_tag_to_i32(aead_alg),
                                    tag_length: tag_length as u32,
                                },
                            ),
                        ),
                    },
                )
            }
        },
    }
}

/// The asymmetric signature algorithm a wire message decodes to: the
/// discriminant and every nested sign-hash field are mandatory.
pub open spec fn spec_asymmetric_signature_from_proto(w: wire_ops::AsymmetricSignature) -> Result<
    AsymmetricSignature,
    ResponseStatus,
> {
    match w.variant {
        Option::None => Err(ResponseStatus::InvalidEncoding),
        Option::Some(wire_ops::AsymmetricSignatureVariant::RsaPkcs1v15Sign(m)) => match m.hash_alg {
            Option::None => Err(ResponseStatus::InvalidEncoding),
            Option::Some(sh) => match spec_sign_hash_from_proto(sh) {
                Ok(hash_alg) => Ok(AsymmetricSignature::RsaPkcs1v15Sign { hash_alg }),
                Err(e) => Err(e),
            },
        },
        Option::Some(wire_ops::AsymmetricSignatureVariant::RsaPkcs1v15SignRaw(_)) => Ok(
            AsymmetricSignature::RsaPkcs1v15SignRaw,
        ),
        Option::Some(wire_ops::AsymmetricSignatureVariant::RsaPss(m)) => match m.hash_alg {
            Option::None => Err(ResponseStatus::InvalidEncoding),
            Option::Some(sh) => match spec_sign_hash_from_proto(sh) {
                Ok(hash_alg) => Ok(AsymmetricSignature::RsaPss { hash_alg }),
                Err(e) => Err(e),
            },
        },
        Option::Some(wire_ops::AsymmetricSignatureVariant::Ecdsa(m)) => match m.hash_alg {
            Option::None => Err(ResponseStatus::InvalidEncoding),
            Option::Some(sh) => match spec_sign_hash_from_proto(sh) {
                Ok(hash_alg) => Ok(AsymmetricSignature::Ecdsa { hash_alg }),
                Err(e) => Err(e),
            },
        },
        Option::Some(wire_ops::AsymmetricSignatureVariant::EcdsaAny(_)) => Ok(
            AsymmetricSignature::EcdsaAny,
        ),
        Option::Some(wire_ops::AsymmetricSignatureVariant::DeterministicEcdsa(m)) => match m.hash_alg {
            Option::None => Err(ResponseStatus::InvalidEncoding),
            Option::Some(sh) => match spec_sign_hash_from_proto(sh) {
                Ok(hash_alg) => Ok(AsymmetricSignature::DeterministicEcdsa { hash_alg }),
                Err(e) => Err(e),
            },
        },
    }
}

/// The wire message of an asymmetric signature algorithm.
pub open spec fn spec_asymmetric_signature_to_proto(alg: AsymmetricSignature) -> wire_ops::AsymmetricSignature {
    match alg {
        AsymmetricSignature::RsaPkcs1v15Sign { hash_alg } => wire_ops::AsymmetricSignature {
            variant: Option::Some(
                wire_ops::AsymmetricSignatureVariant::RsaPkcs1v15Sign(
                    wire_ops::RsaPkcs1v15Sign {
                        hash_alg: Option::Some(spec_sign_hash_to_proto(hash_alg)),
                    },
                ),
            ),
        },
        AsymmetricSignature::RsaPkcs1v15SignRaw => wire_ops::AsymmetricSignature {
            variant: Option::Some(
                wire_ops::AsymmetricSignatureVariant::RsaPkcs1v15SignRaw(
                    wire_ops::RsaPkcs1v15SignRaw {  },
                ),
            ),
        },
        AsymmetricSignature::RsaPss { hash_alg } => wire_ops::AsymmetricSignature {
            variant: Option::Some(
                wire_ops::AsymmetricSignatureVariant::RsaPss(
                    wire_ops::RsaPss { hash_alg: Option::Some(spec_sign_hash_to_proto(hash_alg)) },
                ),
            ),
        },
        AsymmetricSignature::Ecdsa { hash_alg } => wire_ops::AsymmetricSignature {
            variant: Option::Some(
                wire_ops::AsymmetricSignatureVariant::Ecdsa(
                    wire_ops::Ecdsa { hash_alg: Option::Some(spec_sign_hash_to_proto(hash_alg)) },
                ),
            ),
        },
        AsymmetricSignature::EcdsaAny => wire_ops::AsymmetricSignature {
            variant: Option::Some(
                wire_ops::AsymmetricSignatureVariant::EcdsaAny(wire_ops::EcdsaAny {  }),
            ),
        },
        AsymmetricSignature::DeterministicEcdsa { hash_alg } => wire_ops::AsymmetricSignature {
            variant: Option::Some(
                wire_ops::AsymmetricSignatureVariant::DeterministicEcdsa(
                    wire_ops::DeterministicEcdsa {
                        hash_alg: Option::Some(spec_sign_hash_to_proto(hash_alg)),
                    },
                ),
            ),
        },
    }
}

/// AsymmetricSignature algorithms: from wire message to native.
///
/// # Errors
/// - `InvalidEncoding` if a mandatory discriminant or nested sign-hash
///   field is absent, or a nested code is invalid
pub fn asymmetric_signature_from_proto(w: wire_ops::AsymmetricSignature) -> (r: Result<
    AsymmetricSignature,
    ResponseStatus,
>)
    ensures
        r == spec_asymmetric_signature_from_proto(w),
{
    match w.variant {
        Option::None => Err(ResponseStatus::InvalidEncoding),
        Option::Some(wire_ops::AsymmetricSignatureVariant::RsaPkcs1v15Sign(m)) => match m.hash_alg {
            Option::None => Err(ResponseStatus::InvalidEncoding),
            Option::Some(sh) => Ok(
                AsymmetricSignature::RsaPkcs1v15Sign { hash_alg: sign_hash_from_proto(sh)? },
            ),
        },
        Option::Some(wire_ops::AsymmetricSignatureVariant::RsaPkcs1v15SignRaw(_)) => Ok(
            AsymmetricSignature::RsaPkcs1v15SignRaw,
        ),
        Option::Some(wire_ops::AsymmetricSignatureVariant::RsaPss(m)) => match m.hash_alg {
            Option::None => Err(ResponseStatus::InvalidEncoding),
            Option::Some(sh) => Ok(AsymmetricSignature::RsaPss { hash_alg: sign_hash_from_proto(sh)? }),
        },
        Option::Some(wire_ops::AsymmetricSignatureVariant::Ecdsa(m)) => match m.hash_alg {
            Option::None => Err(ResponseStatus::InvalidEncoding),
            Option::Some(sh) => Ok(AsymmetricSignature::Ecdsa { hash_alg: sign_hash_from_proto(sh)? }),
        },
        Option::Some(wire_ops::AsymmetricSignatureVariant::EcdsaAny(_)) => Ok(
            AsymmetricSignature::EcdsaAny,
        ),
        Option::Some(wire_ops::AsymmetricSignatureVariant::DeterministicEcdsa(m)) => match m.hash_alg {
            Option::None => Err(ResponseStatus::InvalidEncoding),
            Option::Some(sh) => Ok(
                AsymmetricSignature::DeterministicEcdsa { hash_alg: sign_hash_from_proto(sh)? },
            ),
        },
    }
}

/// AsymmetricSignature algorithms: from native to wire message. This
/// direction never fails; the fallible signature matches the other levels.
pub fn asymmetric_signature_to_proto(alg: AsymmetricSignature) -> (r: Result<
    wire_ops::AsymmetricSignature,
    ResponseStatus,
>)
    ensures
        r == Ok::<wire_ops::AsymmetricSignature, ResponseStatus>(
            spec_asymmetric_signature_to_proto(alg),
        ),
{
    match alg {
        AsymmetricSignature::RsaPkcs1v15Sign { hash_alg } => Ok(
            wire_ops::AsymmetricSignature {
                variant: Option::Some(
                    wire_ops::AsymmetricSignatureVariant::RsaPkcs1v15Sign(
                        wire_ops::RsaPkcs1v15Sign {
                            hash_alg: Option::Some(sign_hash_to_proto(hash_alg)),
                        },
                    ),
                ),
            },
        ),
        AsymmetricSignature::RsaPkcs1v15SignRaw => Ok(
            wire_ops::AsymmetricSignature {
                variant: Option::Some(
                    wire_ops::AsymmetricSignatureVariant::RsaPkcs1v15SignRaw(
                        wire_ops::RsaPkcs1v15SignRaw {  },
                    ),
                ),
            },
        ),
        AsymmetricSignature::RsaPss { hash_alg } => Ok(
            wire_ops::AsymmetricSignature {
                variant: Option::Some(
                    wire_ops::AsymmetricSignatureVariant::RsaPss(
                        wire_ops::RsaPss { hash_alg: Option::Some(sign_hash_to_proto(hash_alg)) },
                    ),
                ),
            },
        ),
        AsymmetricSignature::Ecdsa { hash_alg } => Ok(
            wire_ops::AsymmetricSignature {
                variant: Option::Some(
                    wire_ops::AsymmetricSignatureVariant::Ecdsa(
                        wire_ops::Ecdsa { hash_alg: Option::Some(sign_hash_to_proto(hash_alg)) },
                    ),
                ),
            },
        ),
        AsymmetricSignature::EcdsaAny => Ok(
            wire_ops::AsymmetricSignature {
                variant: Option::Some(
                    wire_ops::AsymmetricSignatureVariant::EcdsaAny(wire_ops::EcdsaAny {  }),
                ),
            },
        ),
        AsymmetricSignature::DeterministicEcdsa { hash_alg } => Ok(
            wire_ops::AsymmetricSignature {
                variant: Option::Some(
                    wire_ops::AsymmetricSignatureVariant::DeterministicEcdsa(
                        wire_ops::DeterministicEcdsa {
                            hash_alg: Option::Some(sign_hash_to_proto(hash_alg)),
                        },
                    ),
                ),
            },
        ),
    }
}

/// The asymmetric encryption algorithm a wire message decodes to.
pub open spec fn spec_asymmetric_encryption_from_proto(
    w: wire_ops::AsymmetricEncryption,
) -> Result<AsymmetricEncryption, ResponseStatus> {
    match w.variant {
        Option::None => Err(ResponseStatus::InvalidEncoding),
        Option::Some(wire_ops::AsymmetricEncryptionVariant::RsaPkcs1v15Crypt(_)) => Ok(
            AsymmetricEncryption::RsaPkcs1v15Crypt,
        ),
        Option::Some(wire_ops::AsymmetricEncryptionVariant::RsaOaep(m)) => match spec_i32_to_hash(
            m.hash_alg,
        ) {
            Ok(hash_alg) => Ok(AsymmetricEncryption::RsaOaep { hash_alg }),
            Err(e) => Err(e),
        },
    }
}

/// The wire message of an asymmetric encryption algorithm.
pub open spec fn spec_asymmetric_encryption_to_proto(alg: AsymmetricEncryption) -> wire_ops::AsymmetricEncryption {
    match alg {
        AsymmetricEncryption::RsaPkcs1v15Crypt => wire_ops::AsymmetricEncryption {
            variant: Option::Some(
                wire_ops::AsymmetricEncryptionVariant::RsaPkcs1v15Crypt(
                    wire_ops::RsaPkcs1v15Crypt {  },
                ),
            ),
        },
        AsymmetricEncryption::RsaOaep { hash_alg } => wire_ops::AsymmetricEncryption {
            variant: Option::Some(
                wire_ops::AsymmetricEncryptionVariant::RsaOaep(
                    wire_ops::RsaOaep { hash_alg: spec_hash_to_i32(hash_alg) },
                ),
            ),
        },
    }
}

/// AsymmetricEncryption algorithms: from wire message to native.
///
/// # Errors
/// - `InvalidEncoding` if the discriminant is absent or the hash code is
///   invalid
pub fn asymmetric_encryption_from_proto(w: wire_ops::AsymmetricEncryption) -> (r: Result<
    AsymmetricEncryption,
    ResponseStatus,
>)
    ensures
        r == spec_asymmetric_encryption_from_proto(w),
{
    match w.variant {
        Option::None => Err(ResponseStatus::InvalidEncoding),
        Option::Some(wire_ops::AsymmetricEncryptionVariant::RsaPkcs1v15Crypt(_)) => Ok(
            AsymmetricEncryption::RsaPkcs1v15Crypt,
        ),
        Option::Some(wire_ops::AsymmetricEncryptionVariant::RsaOaep(m)) => Ok(
            AsymmetricEncryption::RsaOaep { hash_alg: i32_to_hash(m.hash_alg)? },
        ),
    }
}

/// AsymmetricEncryption algorithms: from native to wire message. This
/// direction never fails; the fallible signature matches the other levels.
pub fn asymmetric_encryption_to_proto(alg: AsymmetricEncryption) -> (r: Result<
    wire_ops::AsymmetricEncryption,
    ResponseStatus,
>)
    ensures
        r == Ok::<wire_ops::AsymmetricEncryption, ResponseStatus>(
            spec_asymmetric_encryption_to_proto(alg),
        ),
{
    match alg {
        AsymmetricEncryption::RsaPkcs1v15Crypt => Ok(
            wire_ops::AsymmetricEncryption {
                variant: Option::Some(
                    wire_ops::AsymmetricEncryptionVariant::RsaPkcs1v15Crypt(
                        wire_ops::RsaPkcs1v15Crypt {  },
                    ),
                ),
            },
        ),
        AsymmetricEncryption::RsaOaep { hash_alg } => Ok(
            wire_ops::AsymmetricEncryption {
                variant: Option::Some(
                    wire_ops::AsymmetricEncryptionVariant::RsaOaep(
                        wire_ops::RsaOaep { hash_alg: hash_to_i32(hash_alg) },
                    ),
                ),
            },
        ),
    }
}

/// The raw key agreement algorithm a wire enumeration code decodes to.
pub open spec fn spec_i32_to_raw_key_agreement(raw_val: i32) -> Result<
    RawKeyAgreement,
    ResponseStatus,
> {
    match raw_val {
        1i32 => Ok(RawKeyAgreement::Ffdh),
        2i32 => Ok(RawKeyAgreement::Ecdh),
        _ => Err(ResponseStatus::InvalidEncoding),
    }
}

/// The wire enumeration code of a raw key agreement algorithm.
pub open spec fn spec_raw_key_agreement_to_i32(raw: RawKeyAgreement) -> i32 {
    match raw {
        RawKeyAgreement::Ffdh => 1i32,
        RawKeyAgreement::Ecdh => 2i32,
    }
}

/// RawKeyAgreement algorithms: from native to wire code.
pub fn raw_key_agreement_to_i32(raw_key_agreement: RawKeyAgreement) -> (r: i32)
    ensures
        r == spec_raw_key_agreement_to_i32(raw_key_agreement),
{
    match raw_key_agreement {
        RawKeyAgreement::Ffdh => 1,
        RawKeyAgreement::Ecdh => 2,
    }
}

/// RawKeyAgreement algorithms: from wire code to native.
///
/// # Errors
/// - `InvalidEncoding` if the code is zero (mandatory field) or unknown
pub fn i32_to_raw_key_agreement(raw_key_agreement_val: i32) -> (r: Result<
    RawKeyAgreement,
    ResponseStatus,
>)
    ensures
        r == spec_i32_to_raw_key_agreement(raw_key_agreement_val),
{
    match raw_key_agreement_val {
        1 => Ok(RawKeyAgreement::Ffdh),
        2 => Ok(RawKeyAgreement::Ecdh),
        _ => Err(ResponseStatus::InvalidEncoding),
    }
}

/// The key agreement algorithm a wire message decodes to: the discriminant
/// and, for the combined form, the nested key derivation are mandatory.
pub open spec fn spec_key_agreement_from_proto(w: wire_ops::KeyAgreement) -> Result<
    KeyAgreement,
    ResponseStatus,
> {
    match w.variant {
        Option::None => Err(ResponseStatus::InvalidEncoding),
        Option::Some(wire_ops::KeyAgreementVariant::Raw(raw_val)) => match spec_i32_to_raw_key_agreement(
            raw_val,
        ) {
            Ok(raw) => Ok(KeyAgreement::Raw(raw)),
            Err(e) => Err(e),
        },
        Option::Some(wire_ops::KeyAgreementVariant::WithKeyDerivation(m)) => match spec_i32_to_raw_key_agreement(
            m.ka_alg,
        ) {
            Err(e) => Err(e),
            Ok(ka_alg) => match m.kdf_alg {
                Option::None => Err(ResponseStatus::InvalidEncoding),
                Option::Some(kdf_proto) => match spec_key_derivation_from_proto(kdf_proto) {
                    Ok(kdf_alg) => Ok(KeyAgreement::WithKeyDerivation { ka_alg, kdf_alg }),
                    Err(e) => Err(e),
                },
            },
        },
    }
}

/// The wire message of a key agreement algorithm.
pub open spec fn spec_key_agreement_to_proto(alg: KeyAgreement) -> wire_ops::KeyAgreement {
    match alg {
        KeyAgreement::Raw(raw) => wire_ops::KeyAgreement {
            variant: Option::Some(
                wire_ops::KeyAgreementVariant::Raw(spec_raw_key_agreement_to_i32(raw)),
            ),
        },
        KeyAgreement::WithKeyDerivation { ka_alg, kdf_alg } => wire_ops::KeyAgreement {
            variant: Option::Some(
                wire_ops::KeyAgreementVariant::WithKeyDerivation(
                    wire_ops::WithKeyDerivation {
                        ka_alg: spec_raw_key_agreement_to_i32(ka_alg),
                        kdf_alg: Option::Some(spec_key_derivation_to_proto(kdf_alg)),
                    },
                ),
            ),
        },
    }
}

/// KeyAgreement algorithms: from wire message to native.
///
/// # Errors
/// - `InvalidEncoding` if a mandatory discriminant or nested field is
///   absent, or a nested code is invalid
pub fn key_agreement_from_proto(w: wire_ops::KeyAgreement) -> (r: Result<
    KeyAgreement,
    ResponseStatus,
>)
    ensures
        r == spec_key_agreement_from_proto(w),
{
    match w.variant {
        Option::None => Err(ResponseStatus::InvalidEncoding),
        Option::Some(wire_ops::KeyAgreementVariant::Raw(raw_val)) => Ok(
            KeyAgreement::Raw(i32_to_raw_key_agreement(raw_val)?),
        ),
        Option::Some(wire_ops::KeyAgreementVariant::WithKeyDerivation(m)) => {
            let ka_alg = i32_to_raw_key_agreement(m.ka_alg)?;
            match m.kdf_alg {
                Option::None => Err(ResponseStatus::InvalidEncoding),
                Option::Some(kdf_proto) => Ok(
                    KeyAgreement::WithKeyDerivation {
                        ka_alg,
                        kdf_alg: key_derivation_from_proto(kdf_proto)?,
                    },
                ),
            }
        },
    }
}

/// KeyAgreement algorithms: from native to wire message. This direction
/// never fails; the fallible signature matches the other levels.
pub fn key_agreement_to_proto(alg: KeyAgreement) -> (r: Result<
    wire_ops::KeyAgreement,
    ResponseStatus,
>)
    ensures
        r == Ok::<wire_ops::KeyAgreement, ResponseStatus>(spec_key_agreement_to_proto(alg)),
{
    match alg {
        KeyAgreement::Raw(raw_key_agreement) => Ok(
            wire_ops::KeyAgreement {
                variant: Option::Some(
                    wire_ops::KeyAgreementVariant::Raw(
                        raw_key_agreement_to_i32(raw_key_agreement),
                    ),
                ),
            },
        ),
        KeyAgreement::WithKeyDerivation { ka_alg, kdf_alg } => Ok(
            wire_ops::KeyAgreement {
                variant: Option::Some(
                    wire_ops::KeyAgreementVariant::WithKeyDerivation(
                        wire_ops::WithKeyDerivation {
                            ka_alg: raw_key_agreement_to_i32(ka_alg),
                            kdf_alg: Option::Some(key_derivation_to_proto(kdf_alg)?),
                        },
                    ),
                ),
            },
        ),
    }
}

/// The key derivation algorithm a wire message decodes to.
pub open spec fn spec_key_derivation_from_proto(w: wire_ops::KeyDerivation) -> Result<
    KeyDerivation,
    ResponseStatus,
> {
    match w.variant {
        Option::None => Err(ResponseStatus::InvalidEncoding),
        Option::Some(wire_ops::KeyDerivationVariant::Hkdf(m)) => match spec_i32_to_hash(
            m.hash_alg,
        ) {
            Ok(hash_alg) => Ok(KeyDerivation::Hkdf { hash_alg }),
            Err(e) => Err(e),
        },
        Option::Some(wire_ops::KeyDerivationVariant::Tls12Prf(m)) => match spec_i32_to_hash(
            m.hash_alg,
        ) {
            Ok(hash_alg) => Ok(KeyDerivation::Tls12Prf { hash_alg }),
            Err(e) => Err(e),
        },
        Option::Some(wire_ops::KeyDerivationVariant::Tls12PskToMs(m)) => match spec_i32_to_hash(
            m.hash_alg,
        ) {
            Ok(hash_alg) => Ok(KeyDerivation::Tls12PskToMs { hash_alg }),
            Err(e) => Err(e),
        },
    }
}

/// The wire message of a key derivation algorithm.
pub open spec fn spec_key_derivation_to_proto(alg: KeyDerivation) -> wire_ops::KeyDerivation {
    match alg {
        KeyDerivation::Hkdf { hash_alg } => wire_ops::KeyDerivation {
            variant: Option::Some(
                wire_ops::KeyDerivationVariant::Hkdf(
                    wire_ops::Hkdf { hash_alg: spec_hash_to_i32(hash_alg) },
                ),
            ),
        },
        KeyDerivation::Tls12Prf { hash_alg } => wire_ops::KeyDerivation {
            variant: Option::Some(
                wire_ops::KeyDerivationVariant::Tls12Prf(
                    wire_ops::Tls12Prf { hash_alg: spec_hash_to_i32(hash_alg) },
                ),
            ),
        },
        KeyDerivation::Tls12PskToMs { hash_alg } => wire_ops::KeyDerivation {
            variant: Option::Some(
                wire_ops::KeyDerivationVariant::Tls12PskToMs(
                    wire_ops::Tls12PskToMs { hash_alg: spec_hash_to_i32(hash_alg) },
                ),
            ),
        },
    }
}

/// KeyDerivation algorithms: from wire message to native.
///
/// # Errors
/// - `InvalidEncoding` if the discriminant is absent or a nested hash code
///   is invalid
pub fn key_derivation_from_proto(w: wire_ops::KeyDerivation) -> (r: Result<
    KeyDerivation,
    ResponseStatus,
>)
    ensures
        r == spec_key_derivation_from_proto(w),
{
    match w.variant {
        Option::None => Err(ResponseStatus::InvalidEncoding),
        Option::Some(wire_ops::KeyDerivationVariant::Hkdf(m)) => Ok(
            KeyDerivation::Hkdf { hash_alg: i32_to_hash(m.hash_alg)? },
        ),
        Option::Some(wire_ops::KeyDerivationVariant::Tls12Prf(m)) => Ok(
            KeyDerivation::Tls12Prf { hash_alg: i32_to_hash(m.hash_alg)? },
        ),
        Option::Some(wire_ops::KeyDerivationVariant::Tls12PskToMs(m)) => Ok(
            KeyDerivation::Tls12PskToMs { hash_alg: i32_to_hash(m.hash_alg)? },
        ),
    }
}

/// KeyDerivation algorithms: from native to wire message. This direction
/// never fails; the fallible signature matches the other levels.
pub fn key_derivation_to_proto(alg: KeyDerivation) -> (r: Result<
    wire_ops::KeyDerivation,
    ResponseStatus,
>)
    ensures
        r == Ok::<wire_ops::KeyDerivation, ResponseStatus>(spec_key_derivation_to_proto(alg)),
{
    match alg {
        KeyDerivation::Hkdf { hash_alg } => Ok(
            wire_ops::KeyDerivation {
                variant: Option::Some(
                    wire_ops::KeyDerivationVariant::Hkdf(
                        wire_ops::Hkdf { hash_alg: hash_to_i32(hash_alg) },
                    ),
                ),
            },
        ),
        KeyDerivation::Tls12Prf { hash_alg } => Ok(
            wire_ops::KeyDerivation {
                variant: Option::Some(
                    wire_ops::KeyDerivationVariant::Tls12Prf(
                        wire_ops::Tls12Prf { hash_alg: hash_to_i32(hash_alg) },
                    ),
                ),
            },
        ),
        KeyDerivation::Tls12PskToMs { hash_alg } => Ok(
            wire_ops::KeyDerivation {
                variant: Option::Some(
                    wire_ops::KeyDerivationVariant::Tls12PskToMs(
                        wire_ops::Tls12PskToMs { hash_alg: hash_to_i32(hash_alg) },
                    ),
                ),
            },
        ),
    }
}

/// The top-level algorithm a wire message decodes to: an absent
/// discriminant is invalid; an explicit "no algorithm" message is valid.
pub open spec fn spec_algorithm_from_proto(w: wire_ops::Algorithm) -> Result<
    Algorithm,
    ResponseStatus,
> {
    match w.variant {
        Option::None => Err(ResponseStatus::InvalidEncoding),
        Option::Some(wire_ops::AlgorithmVariant::NoAlgorithm(_)) => Ok(Algorithm::NoAlgorithm),
        Option::Some(wire_ops::AlgorithmVariant::Hash(hash_val)) => match spec_i32_to_hash(
            hash_val,
        ) {
            Ok(hash) => Ok(Algorithm::Hash(hash)),
            Err(e) => Err(e),
        },
        Option::Some(wire_ops::AlgorithmVariant::Mac(mac)) => match spec_mac_from_proto(mac) {
            Ok(alg) => Ok(Algorithm::Mac(alg)),
            Err(e) => Err(e),
        },
        Option::Some(wire_ops::AlgorithmVariant::Cipher(cipher_val)) => match spec_i32_to_cipher(
            cipher_val,
        ) {
            Ok(cipher) => Ok(Algorithm::Cipher(cipher)),
            Err(e) => Err(e),
        },
        Option::Some(wire_ops::AlgorithmVariant::Aead(aead)) => match spec_aead_from_proto(aead) {
            Ok(alg) => Ok(Algorithm::Aead(alg)),
            Err(e) => Err(e),
        },
        Option::Some(wire_ops::AlgorithmVariant::AsymmetricSignature(m)) => match spec_asymmetric_signature_from_proto(
            m,
        ) {
            Ok(alg) => Ok(Algorithm::AsymmetricSignature(alg)),
            Err(e) => Err(e),
        },
        Option::Some(wire_ops::AlgorithmVariant::AsymmetricEncryption(m)) => match spec_asymmetric_encryption_from_proto(
            m,
        ) {
            Ok(alg) => Ok(Algorithm::AsymmetricEncryption(alg)),
            Err(e) => Err(e),
        },
        Option::Some(wire_ops::AlgorithmVariant::KeyAgreement(m)) => match spec_key_agreement_from_proto(
            m,
        ) {
            Ok(alg) => Ok(Algorithm::KeyAgreement(alg)),
            Err(e) => Err(e),
        },
        Option::Some(wire_ops::AlgorithmVariant::KeyDerivation(m)) => match spec_key_derivation_from_proto(
            m,
        ) {
            Ok(alg) => Ok(Algorithm::KeyDerivation(alg)),
            Err(e) => Err(e),
        },
    }
}

/// The wire message of a top-level algorithm: fails when a nested length
/// does not fit in 32 bits.
pub open spec fn spec_algorithm_to_proto(alg: Algorithm) -> Result<
    wire_ops::Algorithm,
    ResponseStatus,
> {
    match alg {
        Algorithm::NoAlgorithm => Ok(
            wire_ops::Algorithm {
                variant: Option::Some(
                    wire_ops::AlgorithmVariant::NoAlgorithm(wire_ops::NoAlgorithm {  }),
                ),
            },
        ),
        Algorithm::Hash(hash) => Ok(
            wire_ops::Algorithm {
                variant: Option::Some(wire_ops::AlgorithmVariant::Hash(spec_hash_to_i32(hash))),
            },
        ),
        Algorithm::Mac(mac) => match spec_mac_to_proto(mac) {
            Ok(m) => Ok(
                wire_ops::Algorithm { variant: Option::Some(wire_ops::AlgorithmVariant::Mac(m)) },
            ),
            Err(e) => Err(e),
        },
        Algorithm::Cipher(cipher) => Ok(
            wire_ops::Algorithm {
                variant: Option::Some(
                    wire_ops::AlgorithmVariant::Cipher(spec_cipher_to_i32(cipher)),
                ),
            },
        ),
        Algorithm::Aead(aead) => match spec_aead_to_proto(aead) {
            Ok(m) => Ok(
                wire_ops::Algorithm { variant: Option::Some(wire_ops::AlgorithmVariant::Aead(m)) },
            ),
            Err(e) => Err(e),
        },
        Algorithm::AsymmetricSignature(m) => Ok(
            wire_ops::Algorithm {
                variant: Option::Some(
                    wire_ops::AlgorithmVariant::AsymmetricSignature(
                        spec_asymmetric_signature_to_proto(m),
                    ),
                ),
            },
        ),
        Algorithm::AsymmetricEncryption(m) => Ok(
            wire_ops::Algorithm {
                variant: Option::Some(
                    wire_ops::AlgorithmVariant::AsymmetricEncryption(
                        spec_asymmetric_encryption_to_proto(m),
                    ),
                ),
            },
        ),
        Algorithm::KeyAgreement(m) => Ok(
            wire_ops::Algorithm {
                variant: Option::Some(
                    wire_ops::AlgorithmVariant::KeyAgreement(spec_key_agreement_to_proto(m)),
                ),
            },
        ),
        Algorithm::KeyDerivation(m) => Ok(
            wire_ops::Algorithm {
                variant: Option::Some(
                    wire_ops::AlgorithmVariant::KeyDerivation(spec_key_derivation_to_proto(m)),
                ),
            },
        ),
    }
}

/// Algorithm: from wire message to native.
///
/// # Errors
/// - `InvalidEncoding` if any mandatory discriminant or nested field is
///   absent, or any nested code is invalid
pub fn algorithm_from_proto(w: wire_ops::Algorithm) -> (r: Result<Algorithm, ResponseStatus>)
    ensures
        r == spec_algorithm_from_proto(w),
{
    match w.variant {
        Option::None => Err(ResponseStatus::InvalidEncoding),
        Option::Some(wire_ops::AlgorithmVariant::NoAlgorithm(_)) => Ok(Algorithm::NoAlgorithm),
        Option::Some(wire_ops::AlgorithmVariant::Hash(hash_val)) => Ok(
            Algorithm::Hash(i32_to_hash(hash_val)?),
        ),
        Option::Some(wire_ops::AlgorithmVariant::Mac(mac)) => Ok(
            Algorithm::Mac(mac_from_proto(mac)?),
        ),
        Option::Some(wire_ops::AlgorithmVariant::Cipher(cipher_val)) => Ok(
            Algorithm::Cipher(i32_to_cipher(cipher_val)?),
        ),
        Option::Some(wire_ops::AlgorithmVariant::Aead(aead)) => Ok(
            Algorithm::Aead(aead_from_proto(aead)?),
        ),
        Option::Some(wire_ops::AlgorithmVariant::AsymmetricSignature(m)) => Ok(
            Algorithm::AsymmetricSignature(asymmetric_signature_from_proto(m)?),
        ),
        Option::Some(wire_ops::AlgorithmVariant::AsymmetricEncryption(m)) => Ok(
            Algorithm::AsymmetricEncryption(asymmetric_encryption_from_proto(m)?),
        ),
        Option::Some(wire_ops::AlgorithmVariant::KeyAgreement(m)) => Ok(
            Algorithm::KeyAgreement(key_agreement_from_proto(m)?),
        ),
        Option::Some(wire_ops::AlgorithmVariant::KeyDerivation(m)) => Ok(
            Algorithm::KeyDerivation(key_derivation_from_proto(m)?),
        ),
    }
}

/// Algorithm: from native to wire message.
///
/// # Errors
/// - `InvalidEncoding` if a nested length cannot be represented in 32 bits
pub fn algorithm_to_proto(alg: Algorithm) -> (r: Result<wire_ops::Algorithm, ResponseStatus>)
    ensures
        r == spec_algorithm_to_proto(alg),
{
    match alg {
        Algorithm::NoAlgorithm => Ok(
            wire_ops::Algorithm {
                variant: Option::Some(
                    wire_ops::AlgorithmVariant::NoAlgorithm(wire_ops::NoAlgorithm {  }),
                ),
            },
        ),
        Algorithm::Hash(hash) => Ok(
            wire_ops::Algorithm {
                variant: Option::Some(wire_ops::AlgorithmVariant::Hash(hash_to_i32(hash))),
            },
        ),
        Algorithm::Mac(mac) => Ok(
            wire_ops::Algorithm {
                variant: Option::Some(wire_ops::AlgorithmVariant::Mac(mac_to_proto(mac)?)),
            },
        ),
        Algorithm::Cipher(cipher) => Ok(
            wire_ops::Algorithm {
                variant: Option::Some(wire_ops::AlgorithmVariant::Cipher(cipher_to_i32(cipher))),
            },
        ),
        Algorithm::Aead(aead) => Ok(
            wire_ops::Algorithm {
                variant: Option::Some(wire_ops::AlgorithmVariant::Aead(aead_to_proto(aead)?)),
            },
        ),
        Algorithm::AsymmetricSignature(m) => Ok(
            wire_ops::Algorithm {
                variant: Option::Some(
                    wire_ops::AlgorithmVariant::AsymmetricSignature(
                        asymmetric_signature_to_proto(m)?,
                    ),
                ),
            },
        ),
        Algorithm::AsymmetricEncryption(m) => Ok(
            wire_ops::Algorithm {
                variant: Option::Some(
                    wire_ops::AlgorithmVariant::AsymmetricEncryption(
                        asymmetric_encryption_to_proto(m)?,
                    ),
                ),
            },
        ),
        Algorithm::KeyAgreement(m) => Ok(
            wire_ops::Algorithm {
                variant: Option::Some(
                    wire_ops::AlgorithmVariant::KeyAgreement(key_agreement_to_proto(m)?),
                ),
            },
        ),
        Algorithm::KeyDerivation(m) => Ok(
            wire_ops::Algorithm {
                variant: Option::Some(
                    wire_ops::AlgorithmVariant::KeyDerivation(key_derivation_to_proto(m)?),
                ),
            },
        ),
    }
}

/// A hash code accepted by the decoder re-encodes to the same code.
pub proof fn lemma_hash_i32_reencode(hash_val: i32)
    ensures
        spec_i32_to_hash(hash_val) matches Ok(hash) ==> spec_hash_to_i32(hash) == hash_val,
{
}

/// Every sign-hash value round-trips through its wire message.
pub proof fn lemma_sign_hash_roundtrip(sign_hash: SignHash)
    ensures
        spec_sign_hash_from_proto(spec_sign_hash_to_proto(sign_hash)) == Ok::<
            SignHash,
            ResponseStatus,
        >(sign_hash),
{
}

/// A sign-hash wire message accepted by the decoder re-encodes to the same
/// message.
pub proof fn lemma_sign_hash_reencode(w: wire_ops::SignHash)
    ensures
        spec_sign_hash_from_proto(w) matches Ok(sign_hash) ==> spec_sign_hash_to_proto(sign_hash)
            == w,
{
    match w.variant {
        Option::Some(wire_ops::SignHashVariant::Specific(hash_val)) => {
            lemma_hash_i32_reencode(hash_val);
        },
        _ => {},
    }
}

/// Every full-length MAC round-trips through its wire message.
pub proof fn lemma_full_length_mac_roundtrip(alg: FullLengthMac)
    ensures
        spec_full_length_mac_from_proto(spec_full_length_mac_to_proto(alg)) == Ok::<
            FullLengthMac,
            ResponseStatus,
        >(alg),
{
}

/// A full-length MAC wire message accepted by the decoder re-encodes to
/// the same message.
pub proof fn lemma_full_length_mac_reencode(w: wire_ops::FullLength)
    ensures
        spec_full_length_mac_from_proto(w) matches Ok(alg) ==> spec_full_length_mac_to_proto(alg)
            == w,
{
    match w.variant {
        Option::Some(wire_ops::FullLengthVariant::Hmac(hmac)) => {
            lemma_hash_i32_reencode(hmac.hash_alg);
        },
        _ => {},
    }
}

/// Every MAC algorithm whose truncation length fits the wire width
/// round-trips through its wire message; one whose length does not fit is
/// rejected by the encoder.
pub proof fn lemma_mac_roundtrip(alg: Mac)
    ensures
        spec_mac_to_proto(alg) matches Ok(w) ==> spec_mac_from_proto(w) == Ok::<
            Mac,
            ResponseStatus,
        >(alg),
{
    match alg {
        Mac::FullLength(full) => {
            lemma_full_length_mac_roundtrip(full);
        },
        Mac::Truncated { mac_alg, .. } => {
            lemma_full_length_mac_roundtrip(mac_alg);
        },
    }
}

/// A MAC wire message accepted by the decoder re-encodes to the same
/// message.
pub proof fn lemma_mac_reencode(w: wire_ops::Mac)
    ensures
        spec_mac_from_proto(w) matches Ok(alg) ==> spec_mac_to_proto(alg) == Ok::<
            wire_ops::Mac,
            ResponseStatus,
        >(w),
{
    match w.variant {
        Option::Some(wire_ops::MacVariant::FullLength(full_length)) => {
            lemma_full_length_mac_reencode(full_length);
        },
        Option::Some(wire_ops::MacVariant::Truncated(truncated)) => {
            match truncated.mac_alg {
                Option::Some(mac_alg_proto) => {
                    lemma_full_length_mac_reencode(mac_alg_proto);
                },
                Option::None => {},
            }
        },
        Option::None => {},
    }
}

/// Every AEAD algorithm whose tag length fits the wire width round-trips
/// through its wire message.
pub proof fn lemma_aead_roundtrip(alg: Aead)
    ensures
        spec_aead_to_proto(alg) matches Ok(w) ==> spec_aead_from_proto(w) == Ok::<
            Aead,
            ResponseStatus,
        >(alg),
{
}

/// An AEAD wire message accepted by the decoder re-encodes to the same
/// message.
pub proof fn lemma_aead_reencode(w: wire_ops::Aead)
    ensures
        spec_aead_from_proto(w) matches Ok(alg) ==> spec_aead_to_proto(alg) == Ok::<
            wire_ops::Aead,
            ResponseStatus,
        >(w),
{
}

/// Every asymmetric signature algorithm round-trips through its wire
/// message.
pub proof fn lemma_asymmetric_signature_roundtrip(alg: AsymmetricSignature)
    ensures
        spec_asymmetric_signature_from_proto(spec_asymmetric_signature_to_proto(alg)) == Ok::<
            AsymmetricSignature,
            ResponseStatus,
        >(alg),
{
    match alg {
        AsymmetricSignature::RsaPkcs1v15Sign { hash_alg } => {
            lemma_sign_hash_roundtrip(hash_alg);
        },
        AsymmetricSignature::RsaPss { hash_alg } => {
            lemma_sign_hash_roundtrip(hash_alg);
        },
        AsymmetricSignature::Ecdsa { hash_alg } => {
            lemma_sign_hash_roundtrip(hash_alg);
        },
        AsymmetricSignature::DeterministicEcdsa { hash_alg } => {
            lemma_sign_hash_roundtrip(hash_alg);
        },
        _ => {},
    }
}

/// An asymmetric-signature wire message accepted by the decoder re-encodes
/// to the same message.
pub proof fn lemma_asymmetric_signature_reencode(w: wire_ops::AsymmetricSignature)
    ensures
        spec_asymmetric_signature_from_proto(w) matches Ok(alg)
            ==> spec_asymmetric_signature_to_proto(alg) == w,
{
    match w.variant {
        Option::Some(wire_ops::AsymmetricSignatureVariant::RsaPkcs1v15Sign(m)) => {
            match m.hash_alg {
                Option::Some(sh) => lemma_sign_hash_reencode(sh),
                Option::None => {},
            }
        },
        Option::Some(wire_ops::AsymmetricSignatureVariant::RsaPss(m)) => {
            match m.hash_alg {
                Option::Some(sh) => lemma_sign_hash_reencode(sh),
                Option::None => {},
            }
        },
        Option::Some(wire_ops::AsymmetricSignatureVariant::Ecdsa(m)) => {
            match m.hash_alg {
                Option::Some(sh) => lemma_sign_hash_reencode(sh),
                Option::None => {},
            }
        },
        Option::Some(wire_ops::AsymmetricSignatureVariant::DeterministicEcdsa(m)) => {
            match m.hash_alg {
                Option::Some(sh) => lemma_sign_hash_reencode(sh),
                Option::None => {},
            }
        },
        _ => {},
    }
}

/// Every asymmetric encryption algorithm round-trips through its wire
/// message.
pub proof fn lemma_asymmetric_encryption_roundtrip(alg: AsymmetricEncryption)
    ensures
        spec_asymmetric_encryption_from_proto(spec_asymmetric_encryption_to_proto(alg)) == Ok::<
            AsymmetricEncryption,
            ResponseStatus,
        >(alg),
{
}

/// An asymmetric-encryption wire message accepted by the decoder
/// re-encodes to the same message.
pub proof fn lemma_asymmetric_encryption_reencode(w: wire_ops::AsymmetricEncryption)
    ensures
        spec_asymmetric_encryption_from_proto(w) matches Ok(alg)
            ==> spec_asymmetric_encryption_to_proto(alg) == w,
{
    match w.variant {
        Option::Some(wire_ops::AsymmetricEncryptionVariant::RsaOaep(m)) => {
            lemma_hash_i32_reencode(m.hash_alg);
        },
        _ => {},
    }
}

/// Every key derivation algorithm round-trips through its wire message.
pub proof fn lemma_key_derivation_roundtrip(alg: KeyDerivation)
    ensures
        spec_key_derivation_from_proto(spec_key_derivation_to_proto(alg)) == Ok::<
            KeyDerivation,
            ResponseStatus,
        >(alg),
{
}

/// A key-derivation wire message accepted by the decoder re-encodes to the
/// same message.
pub proof fn lemma_key_derivation_reencode(w: wire_ops::KeyDerivation)
    ensures
        spec_key_derivation_from_proto(w) matches Ok(alg) ==> spec_key_derivation_to_proto(alg)
            == w,
{
    match w.variant {
        Option::Some(wire_ops::KeyDerivationVariant::Hkdf(m)) => {
            lemma_hash_i32_reencode(m.hash_alg);
        },
        Option::Some(wire_ops::KeyDerivationVariant::Tls12Prf(m)) => {
            lemma_hash_i32_reencode(m.hash_alg);
        },
        Option::Some(wire_ops::KeyDerivationVariant::Tls12PskToMs(m)) => {
            lemma_hash_i32_reencode(m.hash_alg);
        },
        Option::None => {},
    }
}

/// Every key agreement algorithm round-trips through its wire message.
pub proof fn lemma_key_agreement_roundtrip(alg: KeyAgreement)
    ensures
        spec_key_agreement_from_proto(spec_key_agreement_to_proto(alg)) == Ok::<
            KeyAgreement,
            ResponseStatus,
        >(alg),
{
    match alg {
        KeyAgreement::WithKeyDerivation { kdf_alg, .. } => {
            lemma_key_derivation_roundtrip(kdf_alg);
        },
        _ => {},
    }
}

/// A key-agreement wire message accepted by the decoder re-encodes to the
/// same message.
pub proof fn lemma_key_agreement_reencode(w: wire_ops::KeyAgreement)
    ensures
        spec_key_agreement_from_proto(w) matches Ok(alg) ==> spec_key_agreement_to_proto(alg)
            == w,
{
    match w.variant {
        Option::Some(wire_ops::KeyAgreementVariant::WithKeyDerivation(m)) => {
            match m.kdf_alg {
                Option::Some(kdf_proto) => lemma_key_derivation_reencode(kdf_proto),
                Option::None => {},
            }
        },
        _ => {},
    }
}

/// Round-trip law for algorithm descriptors: every native algorithm the
/// encoder accepts (that is, every one whose length fields fit the wire
/// width) decodes from its wire message back to itself, at every nesting
/// level.
pub proof fn lemma_algorithm_proto_roundtrip(alg: Algorithm)
    ensures
        spec_algorithm_to_proto(alg) matches Ok(w) ==> spec_algorithm_from_proto(w) == Ok::<
            Algorithm,
            ResponseStatus,
        >(alg),
{
    match alg {
        Algorithm::Mac(mac) => lemma_mac_roundtrip(mac),
        Algorithm::Aead(aead) => lemma_aead_roundtrip(aead),
        Algorithm::AsymmetricSignature(m) => lemma_asymmetric_signature_roundtrip(m),
        Algorithm::AsymmetricEncryption(m) => lemma_asymmetric_encryption_roundtrip(m),
        Algorithm::KeyAgreement(m) => lemma_key_agreement_roundtrip(m),
        Algorithm::KeyDerivation(m) => lemma_key_derivation_roundtrip(m),
        _ => {},
    }
}

/// Re-encoding law for algorithm descriptors: every wire message the
/// decoder accepts encodes back to the very same wire message, so decoding
/// followed by encoding reproduces the wire form exactly.
pub proof fn lemma_algorithm_proto_reencode(w: wire_ops::Algorithm)
    ensures
        spec_algorithm_from_proto(w) matches Ok(alg) ==> spec_algorithm_to_proto(alg) == Ok::<
            wire_ops::Algorithm,
            ResponseStatus,
        >(w),
{
    match w.variant {
        Option::Some(wire_ops::AlgorithmVariant::Hash(hash_val)) => {
            lemma_hash_i32_reencode(hash_val);
        },
        Option::Some(wire_ops::AlgorithmVariant::Mac(mac)) => {
            lemma_mac_reencode(mac);
        },
        Option::Some(wire_ops::AlgorithmVariant::Aead(aead)) => {
            lemma_aead_reencode(aead);
        },
        Option::Some(wire_ops::AlgorithmVariant::AsymmetricSignature(m)) => {
            lemma_asymmetric_signature_reencode(m);
        },
        Option::Some(wire_ops::AlgorithmVariant::AsymmetricEncryption(m)) => {
            lemma_asymmetric_encryption_reencode(m);
        },
        Option::Some(wire_ops::AlgorithmVariant::KeyAgreement(m)) => {
            lemma_key_agreement_reencode(m);
        },
        Option::Some(wire_ops::AlgorithmVariant::KeyDerivation(m)) => {
            lemma_key_derivation_reencode(m);
        },
        _ => {},
    }
}

} // verus!
