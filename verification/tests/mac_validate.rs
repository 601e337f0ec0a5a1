//! Validation of MAC operations against key attributes.

use parsec_interface::operations::{psa_mac_compute, psa_mac_verify};
use parsec_interface::psa_algorithm::{Algorithm, AsymmetricSignature, FullLengthMac, Mac, SignHash};
use parsec_interface::psa_algorithm;
use parsec_interface::psa_key_attributes::{Attributes, Lifetime, Policy, Type, UsageFlags};
use parsec_interface::requests::ResponseStatus;
use parsec_interface::secret::SecretBytes;

fn get_attrs(mac: Mac) -> Attributes {
    let permitted_alg = Algorithm::Mac(mac);
    let mut usage = UsageFlags::default();
    // set_sign_hash is needed for mac_compute, set_verify_hash is needed for mac_verify
    let _ = usage.set_sign_hash().set_verify_hash();
    Attributes {
        key_type: Type::Hmac,
        bits: 256,
        lifetime: Lifetime::Volatile,
        policy: Policy {
            usage_flags: usage,
            permitted_algorithms: permitted_alg,
        },
    }
}

#[test]
fn psa_mac_compute_validate_success() {
    let alg = Mac::FullLength(FullLengthMac::Hmac { hash_alg: psa_algorithm::Hash::Sha256 });
    (psa_mac_compute::Operation {
        key_name: String::from("some key"),
        alg,
        input: SecretBytes::new(vec![0xff; 32]),
    })
    .validate(get_attrs(alg))
    .unwrap();
}

#[test]
fn cannot_sign() {
    let alg = Mac::FullLength(FullLengthMac::Hmac { hash_alg: psa_algorithm::Hash::Sha256 });
    let mut attrs = get_attrs(alg);
    attrs.policy.usage_flags = UsageFlags::default();
    assert_eq!(
        (psa_mac_compute::Operation {
            key_name: String::from("some key"),
            alg,
            input: SecretBytes::new(vec![0xff; 32]),
        })
        .validate(attrs)
        .unwrap_err(),
        ResponseStatus::PsaErrorNotPermitted
    );
}

#[test]
fn psa_mac_compute_wrong_algorithm() {
    let right = Mac::FullLength(FullLengthMac::Hmac { hash_alg: psa_algorithm::Hash::Sha1 });
    let wrong = Mac::FullLength(FullLengthMac::Hmac { hash_alg: psa_algorithm::Hash::Sha256 });
    assert_eq!(
        (psa_mac_compute::Operation {
            key_name: String::from("some key"),
            alg: right,
            input: SecretBytes::new(vec![0xff; 32]),
        })
        .validate(get_attrs(wrong))
        .unwrap_err(),
        ResponseStatus::PsaErrorNotPermitted
    );
}

#[test]
fn psa_mac_verify_validate_success() {
    let alg = Mac::FullLength(FullLengthMac::Hmac { hash_alg: psa_algorithm::Hash::Sha256 });
    (psa_mac_verify::Operation {
        key_name: String::from("some key"),
        alg,
        input: SecretBytes::new(vec![0xff; 32]),
        mac: SecretBytes::new(vec![0xff; 32]),
    })
    .validate(get_attrs(alg))
    .unwrap();
}

#[test]
fn cannot_verify() {
    let alg = Mac::FullLength(FullLengthMac::Hmac { hash_alg: psa_algorithm::Hash::Sha256 });
    let mut attrs = get_attrs(alg);
    attrs.policy.usage_flags = UsageFlags::default();
    assert_eq!(
        (psa_mac_verify::Operation {
            key_name: String::from("some key"),
            alg,
            input: SecretBytes::new(vec![0xff; 32]),
            mac: SecretBytes::new(vec![0xff; 32]),
        })
        .validate(attrs)
        .unwrap_err(),
        ResponseStatus::PsaErrorNotPermitted
    );
}

#[test]
fn psa_mac_verify_wrong_algorithm() {
    let right = Mac::FullLength(FullLengthMac::Hmac { hash_alg: psa_algorithm::Hash::Sha1 });
    let wrong = Mac::FullLength(FullLengthMac::Hmac { hash_alg: psa_algorithm::Hash::Sha256 });
    assert_eq!(
        (psa_mac_verify::Operation {
            key_name: String::from("some key"),
            alg: right,
            input: SecretBytes::new(vec![0xff; 32]),
            mac: SecretBytes::new(vec![0xff; 32]),
        })
        .validate(get_attrs(wrong))
        .unwrap_err(),
        ResponseStatus::PsaErrorNotPermitted
    );
}

#[test]
fn truncated_mac_length_and_block_cipher() {
    // A truncated MAC reports the requested length; a CMAC over AES reports
    // the cipher's block size.
    let truncated = Mac::Truncated {
        mac_alg: FullLengthMac::Hmac { hash_alg: psa_algorithm::Hash::Sha256 },
        mac_length: 10,
    };
    let attrs = get_attrs(truncated);
    assert_eq!(attrs.mac_length(truncated).unwrap(), 10);

    let cmac = Mac::FullLength(FullLengthMac::Cmac);
    let mut aes_attrs = get_attrs(cmac);
    aes_attrs.key_type = Type::Aes;
    assert_eq!(aes_attrs.mac_length(cmac).unwrap(), 16);

    // An HMAC is not compatible with an AES key.
    let hmac = Mac::FullLength(FullLengthMac::Hmac { hash_alg: psa_algorithm::Hash::Sha256 });
    assert_eq!(
        aes_attrs.mac_length(hmac).unwrap_err(),
        ResponseStatus::PsaErrorNotPermitted
    );
}

#[test]
fn no_algorithm_policy_permits_nothing() {
    let alg = Mac::FullLength(FullLengthMac::Hmac { hash_alg: psa_algorithm::Hash::Sha256 });
    let mut attrs = get_attrs(alg);
    attrs.policy.permitted_algorithms = Algorithm::NoAlgorithm;
    assert_eq!(
        (psa_mac_compute::Operation {
            key_name: String::from("some key"),
            alg,
            input: SecretBytes::new(vec![0xff; 32]),
        })
        .validate(attrs)
        .unwrap_err(),
        ResponseStatus::PsaErrorNotPermitted
    );
}

#[test]
fn sign_hash_flag_also_grants_sign_message() {
    let mut usage = UsageFlags::default();
    assert!(!usage.sign_hash());
    assert!(!usage.sign_message());
    let _ = usage.set_sign_hash();
    assert!(usage.sign_hash());
    assert!(usage.sign_message());
    assert!(!usage.verify_hash());
    let _ = usage.set_verify_hash();
    assert!(usage.verify_hash());
    assert!(usage.verify_message());
}

#[test]
fn signature_policy_wildcard_hash() {
    // An asymmetric-signature policy may hold a hash wildcard: it permits
    // any specific hash of the same scheme, but never the wildcard itself
    // as an operation.
    let policy = AsymmetricSignature::RsaPss { hash_alg: SignHash::Any };
    assert!(policy.is_alg_permitted(AsymmetricSignature::RsaPss {
        hash_alg: SignHash::Specific(psa_algorithm::Hash::Sha256),
    }));
    assert!(!policy.is_alg_permitted(AsymmetricSignature::RsaPss { hash_alg: SignHash::Any }));
    assert!(!policy.is_alg_permitted(AsymmetricSignature::Ecdsa {
        hash_alg: SignHash::Specific(psa_algorithm::Hash::Sha256),
    }));
    let specific = AsymmetricSignature::RsaPss {
        hash_alg: SignHash::Specific(psa_algorithm::Hash::Sha256),
    };
    assert!(!specific.is_alg_permitted(AsymmetricSignature::RsaPss {
        hash_alg: SignHash::Specific(psa_algorithm::Hash::Sha1),
    }));
}
