//! Conversions between native algorithm descriptors and their wire form.

use parsec_interface::operations_protobuf::convert_psa_algorithm::{
    aead_from_proto, aead_with_default_length_tag_to_i32, algorithm_from_proto,
    algorithm_to_proto, asymmetric_encryption_from_proto, asymmetric_signature_from_proto,
    cipher_to_i32, full_length_mac_from_proto, hash_to_i32, i32_to_aead_with_default_length_tag,
    i32_to_cipher, i32_to_hash, i32_to_raw_key_agreement, key_agreement_from_proto,
    key_derivation_from_proto, mac_from_proto, raw_key_agreement_to_i32, sign_hash_from_proto,
};
use parsec_interface::operations_protobuf::wire_ops;
use parsec_interface::psa_algorithm;
use parsec_interface::psa_algorithm::{
    Aead, AeadWithDefaultLengthTag, Algorithm, AsymmetricSignature, Cipher, FullLengthMac, Mac,
    RawKeyAgreement, SignHash,
};
use parsec_interface::requests::ResponseStatus;

#[test]
fn sign_algo_from_proto() {
    let proto_sign = wire_ops::Algorithm {
        variant: Some(wire_ops::AlgorithmVariant::AsymmetricSignature(
            wire_ops::AsymmetricSignature {
                variant: Some(wire_ops::AsymmetricSignatureVariant::RsaPkcs1v15Sign(
                    wire_ops::RsaPkcs1v15Sign {
                        hash_alg: Some(wire_ops::SignHash {
                            variant: Some(wire_ops::SignHashVariant::Specific(hash_to_i32(
                                psa_algorithm::Hash::Sha1,
                            ))),
                        }),
                    },
                )),
            },
        )),
    };

    let sign: Algorithm = algorithm_from_proto(proto_sign).unwrap();
    let sign_expected = Algorithm::AsymmetricSignature(AsymmetricSignature::RsaPkcs1v15Sign {
        hash_alg: SignHash::Specific(psa_algorithm::Hash::Sha1),
    });

    assert_eq!(sign, sign_expected);
}

#[test]
fn sign_algo_to_proto() {
    let sign = Algorithm::AsymmetricSignature(AsymmetricSignature::RsaPkcs1v15Sign {
        hash_alg: SignHash::Specific(psa_algorithm::Hash::Sha1),
    });

    let proto_sign: wire_ops::Algorithm = algorithm_to_proto(sign).unwrap();
    let proto_sign_expected = wire_ops::Algorithm {
        variant: Some(wire_ops::AlgorithmVariant::AsymmetricSignature(
            wire_ops::AsymmetricSignature {
                variant: Some(wire_ops::AsymmetricSignatureVariant::RsaPkcs1v15Sign(
                    wire_ops::RsaPkcs1v15Sign {
                        hash_alg: Some(wire_ops::SignHash {
                            variant: Some(wire_ops::SignHashVariant::Specific(hash_to_i32(
                                psa_algorithm::Hash::Sha1,
                            ))),
                        }),
                    },
                )),
            },
        )),
    };

    assert_eq!(proto_sign, proto_sign_expected);
}

#[test]
fn enum_codes_are_stable() {
    assert_eq!(hash_to_i32(psa_algorithm::Hash::Md2), 1);
    assert_eq!(hash_to_i32(psa_algorithm::Hash::Sha1), 5);
    assert_eq!(hash_to_i32(psa_algorithm::Hash::Sha256), 7);
    assert_eq!(hash_to_i32(psa_algorithm::Hash::Sha3_512), 15);
    assert_eq!(i32_to_hash(7).unwrap(), psa_algorithm::Hash::Sha256);
    assert_eq!(cipher_to_i32(Cipher::StreamCipher), 1);
    assert_eq!(cipher_to_i32(Cipher::CbcPkcs7), 8);
    assert_eq!(i32_to_cipher(2).unwrap(), Cipher::Ctr);
    assert_eq!(aead_with_default_length_tag_to_i32(AeadWithDefaultLengthTag::Ccm), 1);
    assert_eq!(
        i32_to_aead_with_default_length_tag(3).unwrap(),
        AeadWithDefaultLengthTag::Chacha20Poly1305
    );
    assert_eq!(raw_key_agreement_to_i32(RawKeyAgreement::Ffdh), 1);
    assert_eq!(i32_to_raw_key_agreement(2).unwrap(), RawKeyAgreement::Ecdh);
}

#[test]
fn unset_enumeration_codes_are_rejected() {
    // The zero code is the "unspecified" enumeration value; it is invalid
    // wherever a concrete algorithm is mandatory, and so is any unknown
    // code.
    assert_eq!(i32_to_hash(0).unwrap_err(), ResponseStatus::InvalidEncoding);
    assert_eq!(i32_to_hash(16).unwrap_err(), ResponseStatus::InvalidEncoding);
    assert_eq!(i32_to_hash(-1).unwrap_err(), ResponseStatus::InvalidEncoding);
    assert_eq!(i32_to_cipher(0).unwrap_err(), ResponseStatus::InvalidEncoding);
    assert_eq!(i32_to_cipher(9).unwrap_err(), ResponseStatus::InvalidEncoding);
    assert_eq!(
        i32_to_aead_with_default_length_tag(0).unwrap_err(),
        ResponseStatus::InvalidEncoding
    );
    assert_eq!(i32_to_raw_key_agreement(0).unwrap_err(), ResponseStatus::InvalidEncoding);
}

#[test]
fn unset_discriminants_are_rejected_at_every_level() {
    // A wire message whose mandatory oneof discriminant is absent fails
    // with InvalidEncoding, at every nested union level.
    assert_eq!(
        sign_hash_from_proto(wire_ops::SignHash { variant: None }).unwrap_err(),
        ResponseStatus::InvalidEncoding
    );
    assert_eq!(
        full_length_mac_from_proto(wire_ops::FullLength { variant: None }).unwrap_err(),
        ResponseStatus::InvalidEncoding
    );
    assert_eq!(
        mac_from_proto(wire_ops::Mac { variant: None }).unwrap_err(),
        ResponseStatus::InvalidEncoding
    );
    assert_eq!(
        aead_from_proto(wire_ops::Aead { variant: None }).unwrap_err(),
        ResponseStatus::InvalidEncoding
    );
    assert_eq!(
        asymmetric_signature_from_proto(wire_ops::AsymmetricSignature { variant: None })
            .unwrap_err(),
        ResponseStatus::InvalidEncoding
    );
    assert_eq!(
        asymmetric_encryption_from_proto(wire_ops::AsymmetricEncryption { variant: None })
            .unwrap_err(),
        ResponseStatus::InvalidEncoding
    );
    assert_eq!(
        key_agreement_from_proto(wire_ops::KeyAgreement { variant: None }).unwrap_err(),
        ResponseStatus::InvalidEncoding
    );
    assert_eq!(
        key_derivation_from_proto(wire_ops::KeyDerivation { variant: None }).unwrap_err(),
        ResponseStatus::InvalidEncoding
    );
    assert_eq!(
        algorithm_from_proto(wire_ops::Algorithm { variant: None }).unwrap_err(),
        ResponseStatus::InvalidEncoding
    );
    // A nested mandatory field that is absent is rejected too.
    assert_eq!(
        mac_from_proto(wire_ops::Mac {
            variant: Some(wire_ops::MacVariant::Truncated(wire_ops::Truncated {
                mac_alg: None,
                mac_length: 4,
            })),
        })
        .unwrap_err(),
        ResponseStatus::InvalidEncoding
    );
    assert_eq!(
        asymmetric_signature_from_proto(wire_ops::AsymmetricSignature {
            variant: Some(wire_ops::AsymmetricSignatureVariant::RsaPss(wire_ops::RsaPss {
                hash_alg: None,
            })),
        })
        .unwrap_err(),
        ResponseStatus::InvalidEncoding
    );
}

#[test]
fn algorithm_struct_roundtrips() {
    // Every kind of descriptor converts to its wire form and back
    // unchanged, including recursive sub-variants.
    let algorithms = vec![
        Algorithm::NoAlgorithm,
        Algorithm::Hash(psa_algorithm::Hash::Sha512_256),
        Algorithm::Mac(Mac::Truncated {
            mac_alg: FullLengthMac::Cmac,
            mac_length: 8,
        }),
        Algorithm::Mac(Mac::FullLength(FullLengthMac::Hmac {
            hash_alg: psa_algorithm::Hash::Ripemd160,
        })),
        Algorithm::Cipher(Cipher::Xts),
        Algorithm::Aead(Aead::AeadWithShortenedTag {
            aead_alg: AeadWithDefaultLengthTag::Gcm,
            tag_length: 12,
        }),
        Algorithm::AsymmetricSignature(AsymmetricSignature::DeterministicEcdsa {
            hash_alg: SignHash::Any,
        }),
        Algorithm::AsymmetricEncryption(psa_algorithm::AsymmetricEncryption::RsaOaep {
            hash_alg: psa_algorithm::Hash::Sha384,
        }),
        Algorithm::KeyAgreement(psa_algorithm::KeyAgreement::WithKeyDerivation {
            ka_alg: RawKeyAgreement::Ecdh,
            kdf_alg: psa_algorithm::KeyDerivation::Hkdf {
                hash_alg: psa_algorithm::Hash::Sha256,
            },
        }),
        Algorithm::KeyDerivation(psa_algorithm::KeyDerivation::Tls12PskToMs {
            hash_alg: psa_algorithm::Hash::Sha224,
        }),
    ];
    for alg in algorithms {
        let proto = algorithm_to_proto(alg).unwrap();
        assert_eq!(algorithm_from_proto(proto).unwrap(), alg);
    }
}

#[test]
fn oversized_length_fails_encoding() {
    // On a 64-bit machine a truncation length that does not fit 32 bits is
    // rejected on encode with InvalidEncoding.
    if usize::MAX as u128 > u32::MAX as u128 {
        let alg = Algorithm::Mac(Mac::Truncated {
            mac_alg: FullLengthMac::Cmac,
            mac_length: (u32::MAX as usize) + 1,
        });
        assert_eq!(algorithm_to_proto(alg).unwrap_err(), ResponseStatus::InvalidEncoding);
    }
}
