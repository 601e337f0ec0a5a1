//! Native model of key attributes and their policy.
//!
//! Key attributes describe what a key is (lifetime, type, bit size) and what
//! it may be used for (usage flags and a permitted-algorithm policy). They
//! are owned by the caller and only ever read here: the permission checks
//! are pure functions with no side effects.

use vstd::prelude::*;

use crate::psa_algorithm::{Algorithm, Cipher, KeyAgreement, Mac, RawKeyAgreement};
use crate::requests::ResponseStatus;

verus! {

/// The lifetime of a key indicates where it is stored and which application
/// and system actions will create and destroy it.
#[derive(Copy, Clone, Debug, PartialEq, Eq, Structural)]
pub enum Lifetime {
    /// A volatile key only exists as long as the identifier to it is not destroyed.
    Volatile,
    /// A persistent key remains in storage until it is explicitly destroyed
    /// or until the corresponding storage area is wiped.
    Persistent,
    /// Implementations can offer other storage areas designated by other
    /// lifetime values as implementation-specific extensions.
    Custom(u32),
}

/// Enumeration of elliptic curve families supported. They are needed to
/// create an ECC key. The specific curve used for each family is given by
/// the `bits` field of the key attributes.
#[derive(Copy, Clone, Debug, PartialEq, Eq, Structural)]
pub enum EccFamily {
    /// SEC Koblitz curves over prime fields.
    SecpK1,
    /// SEC random curves over prime fields.
    SecpR1,
    /// SEC additional random curves over prime fields (weak, deprecated).
    SecpR2,
    /// SEC Koblitz curves over binary fields.
    SectK1,
    /// SEC random curves over binary fields.
    SectR1,
    /// SEC additional random curves over binary fields (weak, deprecated).
    SectR2,
    /// Brainpool P random curves.
    BrainpoolPR1,
    /// Curve used primarily in France and elsewhere in Europe.
    Frp,
    /// Montgomery curves.
    Montgomery,
}

/// Enumeration of Diffie-Hellman group families supported.
#[derive(Copy, Clone, Debug, PartialEq, Eq, Structural)]
pub enum DhFamily {
    /// Diffie-Hellman groups defined in RFC 7919 Appendix A.
    Rfc7919,
}

/// Enumeration of key types supported.
#[derive(Copy, Clone, Debug, PartialEq, Eq, Structural)]
pub enum Type {
    /// Not a valid key type for any cryptographic operation but can be used
    /// to store arbitrary data in the key store.
    RawData,
    /// HMAC key.
    Hmac,
    /// A secret key for derivation.
    Derive,
    /// Key for a cipher, AEAD or MAC algorithm based on the AES block cipher.
    Aes,
    /// Key for a cipher or MAC algorithm based on DES or 3DES (Triple-DES).
    Des,
    /// Key for a cipher, AEAD or MAC algorithm based on the Camellia block cipher.
    Camellia,
    /// Key for the RC4 stream cipher.
    Arc4,
    /// Key for the ChaCha20 stream cipher or the Chacha20-Poly1305 AEAD algorithm.
    Chacha20,
    /// RSA public key.
    RsaPublicKey,
    /// RSA key pair: both the private and public key.
    RsaKeyPair,
    /// Elliptic curve key pair: both the private and public key.
    EccKeyPair {
        /// ECC curve family to use.
        curve_family: EccFamily,
    },
    /// Elliptic curve public key.
    EccPublicKey {
        /// ECC curve family to use.
        curve_family: EccFamily,
    },
    /// Diffie-Hellman key pair: both the private key and public key.
    DhKeyPair {
        /// Diffie-Hellman group family to use.
        group_family: DhFamily,
    },
    /// Diffie-Hellman public key.
    DhPublicKey {
        /// Diffie-Hellman group family to use.
        group_family: DhFamily,
    },
}

impl Type {
    /// Block size in bytes of the block cipher a key of this type drives;
    /// one for stream ciphers, zero for key types that drive no cipher.
    pub open spec fn spec_block_cipher_block_length(self) -> usize {
        match self {
            Type::Aes | Type::Camellia => 16usize,
            Type::Des => 8usize,
            Type::Arc4 | Type::Chacha20 => 1usize,
            _ => 0usize,
        }
    }
}

/// Mathematical view of a set of usage flags: one boolean per capability.
pub ghost struct UsageFlagsView {
    /// Permission to export the key.
    pub export: bool,
    /// Permission to copy the key.
    pub copy_key: bool,
    /// Permission for the implementation to cache the key.
    pub cache: bool,
    /// Permission to encrypt a message with the key.
    pub encrypt: bool,
    /// Permission to decrypt a message with the key.
    pub decrypt: bool,
    /// Permission to sign a message with the key.
    pub sign_message: bool,
    /// Permission to verify a message signature with the key.
    pub verify_message: bool,
    /// Permission to sign a message hash with the key.
    pub sign_hash: bool,
    /// Permission to verify a message hash with the key.
    pub verify_hash: bool,
    /// Permission to derive other keys from this key.
    pub derive: bool,
}

impl UsageFlagsView {
    /// The view with every capability denied.
    pub open spec fn none() -> UsageFlagsView {
        UsageFlagsView {
            export: false,
            copy_key: false,
            cache: false,
            encrypt: false,
            decrypt: false,
            sign_message: false,
            verify_message: false,
            sign_hash: false,
            verify_hash: false,
            derive: false,
        }
    }
}

/// Definition of the usage flags. They encode what kind of operations are
/// permitted on the key.
#[derive(Copy, Clone, Debug)]
pub struct UsageFlags {
    export: bool,
    copy_key: bool,
    cache: bool,
    encrypt: bool,
    decrypt: bool,
    sign_message: bool,
    verify_message: bool,
    sign_hash: bool,
    verify_hash: bool,
    derive: bool,
}

impl View for UsageFlags {
    type V = UsageFlagsView;

    closed spec fn view(&self) -> UsageFlagsView {
        UsageFlagsView {
            export: self.export,
            copy_key: self.copy_key,
            cache: self.cache,
            encrypt: self.encrypt,
            decrypt: self.decrypt,
            sign_message: self.sign_message,
            verify_message: self.verify_message,
            sign_hash: self.sign_hash,
            verify_hash: self.verify_hash,
            derive: self.derive,
        }
    }
}

impl Default for UsageFlags {
    /// A fresh set of usage flags denies every capability.
    fn default() -> (r: UsageFlags)
        ensures
            r@ == UsageFlagsView::none(),
    {
        UsageFlags {
            export: false,
            copy_key: false,
            cache: false,
            encrypt: false,
            decrypt: false,
            sign_message: false,
            verify_message: false,
            sign_hash: false,
            verify_hash: false,
            derive: false,
        }
    }
}

impl UsageFlags {
    /// Setter for the export flag.
    pub fn set_export(&mut self) -> (r: &mut Self)
        ensures
            (*r)@ == (UsageFlagsView { export: true, ..old(self)@ }),
            *final(self) == *final(r),
    {
        self.export = true;
        self
    }

    /// Getter for the export flag.
    pub fn export(&self) -> (r: bool)
        ensures
            r == self@.export,
    {
        self.export
    }

    /// Setter for the copy flag.
    pub fn set_copy(&mut self) -> (r: &mut Self)
        ensures
            (*r)@ == (UsageFlagsView { copy_key: true, ..old(self)@ }),
            *final(self) == *final(r),
    {
        self.copy_key = true;
        self
    }

    /// Getter for the copy flag.
    pub fn copy(&self) -> (r: bool)
        ensures
            r == self@.copy_key,
    {
        self.copy_key
    }

    /// Setter for the cache flag.
    pub fn set_cache(&mut self) -> (r: &mut Self)
        ensures
            (*r)@ == (UsageFlagsView { cache: true, ..old(self)@ }),
            *final(self) == *final(r),
    {
        self.cache = true;
        self
    }

    /// Getter for the cache flag.
    pub fn cache(&self) -> (r: bool)
        ensures
            r == self@.cache,
    {
        self.cache
    }

    /// Setter for the encrypt flag.
    pub fn set_encrypt(&mut self) -> (r: &mut Self)
        ensures
            (*r)@ == (UsageFlagsView { encrypt: true, ..old(self)@ }),
            *final(self) == *final(r),
    {
        self.encrypt = true;
        self
    }

    /// Getter for the encrypt flag.
    pub fn encrypt(&self) -> (r: bool)
        ensures
            r == self@.encrypt,
    {
        self.encrypt
    }

    /// Setter for the decrypt flag.
    pub fn set_decrypt(&mut self) -> (r: &mut Self)
        ensures
            (*r)@ == (UsageFlagsView { decrypt: true, ..old(self)@ }),
            *final(self) == *final(r),
    {
        self.decrypt = true;
        self
    }

    /// Getter for the decrypt flag.
    pub fn decrypt(&self) -> (r: bool)
        ensures
            r == self@.decrypt,
    {
        self.decrypt
    }

    /// Setter for the sign_message flag.
    pub fn set_sign_message(&mut self) -> (r: &mut Self)
        ensures
            (*r)@ == (UsageFlagsView { sign_message: true, ..old(self)@ }),
            *final(self) == *final(r),
    {
        self.sign_message = true;
        self
    }

    /// Getter for the sign_message flag.
    pub fn sign_message(&self) -> (r: bool)
        ensures
            r == self@.sign_message,
    {
        self.sign_message
    }

    /// Setter for the verify_message flag.
    pub fn set_verify_message(&mut self) -> (r: &mut Self)
        ensures
            (*r)@ == (UsageFlagsView { verify_message: true, ..old(self)@ }),
            *final(self) == *final(r),
    {
        self.verify_message = true;
        self
    }

    /// Getter for the verify_message flag.
    pub fn verify_message(&self) -> (r: bool)
        ensures
            r == self@.verify_message,
    {
        self.verify_message
    }

    /// Setter for the derive flag.
    pub fn set_derive(&mut self) -> (r: &mut Self)
        ensures
            (*r)@ == (UsageFlagsView { derive: true, ..old(self)@ }),
            *final(self) == *final(r),
    {
        self.derive = true;
        self
    }

    /// Getter for the derive flag.
    pub fn derive(&self) -> (r: bool)
        ensures
            r == self@.derive,
    {
        self.derive
    }

    /// Setter for the sign_hash flag (also sets the sign_message flag).
    pub fn set_sign_hash(&mut self) -> (r: &mut Self)
        ensures
            (*r)@ == (UsageFlagsView { sign_hash: true, sign_message: true, ..old(self)@ }),
            *final(self) == *final(r),
    {
        self.sign_hash = true;
        self.sign_message = true;
        self
    }

    /// Getter for the sign_hash flag.
    pub fn sign_hash(&self) -> (r: bool)
        ensures
            r == self@.sign_hash,
    {
        self.sign_hash
    }

    /// Setter for the verify_hash flag (also sets the verify_message flag).
    pub fn set_verify_hash(&mut self) -> (r: &mut Self)
        ensures
            (*r)@ == (UsageFlagsView { verify_hash: true, verify_message: true, ..old(self)@ }),
            *final(self) == *final(r),
    {
        self.verify_hash = true;
        self.verify_message = true;
        self
    }

    /// Getter for the verify_hash flag.
    pub fn verify_hash(&self) -> (r: bool)
        ensures
            r == self@.verify_hash,
    {
        self.verify_hash
    }
}

/// Definition of the key policy: what is permitted to do with the key.
#[derive(Copy, Clone, Debug)]
pub struct Policy {
    /// Usage flags for the key.
    pub usage_flags: UsageFlags,
    /// Permitted algorithms to be used with the key.
    pub permitted_algorithms: Algorithm,
}

/// Native definition of the attributes needed to fully describe a
/// cryptographic key.
#[derive(Copy, Clone, Debug)]
pub struct Attributes {
    /// Lifetime of the key
    pub lifetime: Lifetime,
    /// Intrinsic category and type of the key
    pub key_type: Type,
    /// Size of the key in bits
    pub bits: usize,
    /// Policy restricting the permitted usage of the key
    pub policy: Policy,
}

impl Attributes {
    /// Whether the key policy permits signing a message hash.
    pub open spec fn spec_is_hash_signable(self) -> bool {
        self.policy.usage_flags@.sign_hash
    }

    /// Whether the key policy permits verifying a message hash.
    pub open spec fn spec_is_hash_verifiable(self) -> bool {
        self.policy.usage_flags@.verify_hash
    }

    /// Whether the given algorithm is permitted by the key's
    /// permitted-algorithm policy: a policy of `NoAlgorithm` permits
    /// nothing, an asymmetric-signature policy may hold a hash wildcard,
    /// and every other policy permits exactly itself.
    pub open spec fn spec_is_alg_permitted(self, alg: Algorithm) -> bool {
        match self.policy.permitted_algorithms {
            Algorithm::NoAlgorithm => false,
            Algorithm::AsymmetricSignature(sign_policy) => match alg {
                Algorithm::AsymmetricSignature(sign_alg) => sign_policy.spec_is_alg_permitted(
                    sign_alg,
                ),
                _ => false,
            },
            permitted_alg => permitted_alg == alg,
        }
    }

    /// Whether the given algorithm is compatible with the type of the key.
    pub open spec fn spec_is_compatible_with_alg(self, alg: Algorithm) -> bool {
        match self.key_type {
            Type::RawData => false,
            Type::Hmac => alg.spec_is_hmac(),
            Type::Derive => alg is KeyDerivation,
            Type::Aes | Type::Camellia => match alg {
                Algorithm::Mac(mac_alg) => mac_alg.spec_is_block_cipher_needed(),
                Algorithm::Cipher(cipher_alg) => cipher_alg.spec_is_block_cipher_mode(),
                Algorithm::Aead(aead_alg) => aead_alg.spec_is_aead_on_block_cipher(),
                _ => false,
            },
            Type::Des => match alg {
                Algorithm::Mac(mac_alg) => mac_alg.spec_is_block_cipher_needed(),
                Algorithm::Cipher(cipher_alg) => cipher_alg.spec_is_block_cipher_mode(),
                _ => false,
            },
            Type::Arc4 => alg == Algorithm::Cipher(Cipher::StreamCipher),
            Type::Chacha20 => match alg {
                Algorithm::Cipher(Cipher::StreamCipher) => true,
                Algorithm::Aead(aead_alg) => aead_alg.spec_is_chacha20_poly1305_alg(),
                _ => false,
            },
            Type::RsaPublicKey | Type::RsaKeyPair => match alg {
                Algorithm::AsymmetricSignature(sign_alg) => sign_alg.spec_is_rsa_alg(),
                Algorithm::AsymmetricEncryption(_) => true,
                _ => false,
            },
            Type::EccKeyPair { .. } | Type::EccPublicKey { .. } => match alg {
                Algorithm::KeyAgreement(KeyAgreement::Raw(RawKeyAgreement::Ecdh)) => true,
                Algorithm::KeyAgreement(
                    KeyAgreement::WithKeyDerivation { ka_alg: RawKeyAgreement::Ecdh, .. },
                ) => true,
                Algorithm::AsymmetricSignature(sign_alg) => sign_alg.spec_is_ecc_alg(),
                _ => false,
            },
            Type::DhKeyPair { .. } | Type::DhPublicKey { .. } => match alg {
                Algorithm::KeyAgreement(KeyAgreement::Raw(RawKeyAgreement::Ffdh)) => true,
                Algorithm::KeyAgreement(
                    KeyAgreement::WithKeyDerivation { ka_alg: RawKeyAgreement::Ffdh, .. },
                ) => true,
                _ => false,
            },
        }
    }

    /// The MAC length the key and algorithm produce: the requested length
    /// for a truncated MAC, the hash length for an HMAC, the block size of
    /// the underlying cipher for a block-cipher MAC.
    pub open spec fn spec_mac_length(self, mac_alg: Mac) -> usize {
        match mac_alg {
            Mac::Truncated { mac_length, .. } => mac_length,
            Mac::FullLength(full) => match full {
                crate::psa_algorithm::FullLengthMac::Hmac { hash_alg } => hash_alg.spec_hash_length(),
                _ => self.key_type.spec_block_cipher_block_length(),
            },
        }
    }

    /// Check if a key has permission to sign a message hash.
    pub fn is_hash_signable(self) -> (r: bool)
        ensures
            r == self.spec_is_hash_signable(),
    {
        self.policy.usage_flags.sign_hash()
    }

    /// Check hash signing permission in a fallible way.
    ///
    /// # Errors
    /// - `PsaErrorNotPermitted` if the key's usage flags do not permit
    ///   signing hashes
    pub fn can_sign_hash(self) -> (r: Result<(), ResponseStatus>)
        ensures
            r == if self.spec_is_hash_signable() {
                Ok::<(), ResponseStatus>(())
            } else {
                Err::<(), ResponseStatus>(ResponseStatus::PsaErrorNotPermitted)
            },
    {
        if self.is_hash_signable() {
            Ok(())
        } else {
            Err(ResponseStatus::PsaErrorNotPermitted)
        }
    }

    /// Check if a key has permission to verify a message hash.
    pub fn is_hash_verifiable(self) -> (r: bool)
        ensures
            r == self.spec_is_hash_verifiable(),
    {
        self.policy.usage_flags.verify_hash()
    }

    /// Check hash verifying permission in a fallible way.
    ///
    /// # Errors
    /// - `PsaErrorNotPermitted` if the key's usage flags do not permit
    ///   verifying hashes
    pub fn can_verify_hash(self) -> (r: Result<(), ResponseStatus>)
        ensures
            r == if self.spec_is_hash_verifiable() {
                Ok::<(), ResponseStatus>(())
            } else {
                Err::<(), ResponseStatus>(ResponseStatus::PsaErrorNotPermitted)
            },
    {
        if self.is_hash_verifiable() {
            Ok(())
        } else {
            Err(ResponseStatus::PsaErrorNotPermitted)
        }
    }

    /// Check if the alg given for a cryptographic operation is permitted to
    /// be used with the key.
    pub fn is_alg_permitted(self, alg: Algorithm) -> (r: bool)
        ensures
            r == self.spec_is_alg_permitted(alg),
    {
        match self.policy.permitted_algorithms {
            Algorithm::NoAlgorithm => false,
            Algorithm::AsymmetricSignature(sign_policy) => match alg {
                Algorithm::AsymmetricSignature(sign_alg) => sign_policy.is_alg_permitted(sign_alg),
                _ => false,
            },
            permitted_alg => permitted_alg == alg,
        }
    }

    /// Check if alg is permitted in a fallible way.
    ///
    /// # Errors
    /// - `PsaErrorNotPermitted` if the key's permitted-algorithm policy does
    ///   not allow the given algorithm
    pub fn permits_alg(self, alg: Algorithm) -> (r: Result<(), ResponseStatus>)
        ensures
            r == if self.spec_is_alg_permitted(alg) {
                Ok::<(), ResponseStatus>(())
            } else {
                Err::<(), ResponseStatus>(ResponseStatus::PsaErrorNotPermitted)
            },
    {
        if self.is_alg_permitted(alg) {
            Ok(())
        } else {
            Err(ResponseStatus::PsaErrorNotPermitted)
        }
    }

    /// Check if the alg given for a cryptographic operation is compatible
    /// with the type of the key.
    pub fn is_compatible_with_alg(self, alg: Algorithm) -> (r: bool)
        ensures
            r == self.spec_is_compatible_with_alg(alg),
    {
        match self.key_type {
            Type::RawData => false,
            Type::Hmac => alg.is_hmac(),
            Type::Derive => matches!(alg, Algorithm::KeyDerivation(_)),
            Type::Aes | Type::Camellia => match alg {
                Algorithm::Mac(mac_alg) => mac_alg.is_block_cipher_needed(),
                Algorithm::Cipher(cipher_alg) => cipher_alg.is_block_cipher_mode(),
                Algorithm::Aead(aead_alg) => aead_alg.is_aead_on_block_cipher(),
                _ => false,
            },
            Type::Des => match alg {
                Algorithm::Mac(mac_alg) => mac_alg.is_block_cipher_needed(),
                Algorithm::Cipher(cipher_alg) => cipher_alg.is_block_cipher_mode(),
                _ => false,
            },
            Type::Arc4 => alg == Algorithm::Cipher(Cipher::StreamCipher),
            Type::Chacha20 => match alg {
                Algorithm::Cipher(Cipher::StreamCipher) => true,
                Algorithm::Aead(aead_alg) => aead_alg.is_chacha20_poly1305_alg(),
                _ => false,
            },
            Type::RsaPublicKey | Type::RsaKeyPair => match alg {
                Algorithm::AsymmetricSignature(sign_alg) => sign_alg.is_rsa_alg(),
                Algorithm::AsymmetricEncryption(_) => true,
                _ => false,
            },
            Type::EccKeyPair { .. } | Type::EccPublicKey { .. } => match alg {
                Algorithm::KeyAgreement(KeyAgreement::Raw(RawKeyAgreement::Ecdh)) => true,
                Algorithm::KeyAgreement(
                    KeyAgreement::WithKeyDerivation { ka_alg: RawKeyAgreement::Ecdh, .. },
                ) => true,
                Algorithm::AsymmetricSignature(sign_alg) => sign_alg.is_ecc_alg(),
                _ => false,
            },
            Type::DhKeyPair { .. } | Type::DhPublicKey { .. } => match alg {
                Algorithm::KeyAgreement(KeyAgreement::Raw(RawKeyAgreement::Ffdh)) => true,
                Algorithm::KeyAgreement(
                    KeyAgreement::WithKeyDerivation { ka_alg: RawKeyAgreement::Ffdh, .. },
                ) => true,
                _ => false,
            },
        }
    }

    /// Check if alg is compatible in a fallible way.
    ///
    /// # Errors
    /// - `PsaErrorNotPermitted` if the algorithm is not compatible with the
    ///   key type
    pub fn compatible_with_alg(self, alg: Algorithm) -> (r: Result<(), ResponseStatus>)
        ensures
            r == if self.spec_is_compatible_with_alg(alg) {
                Ok::<(), ResponseStatus>(())
            } else {
                Err::<(), ResponseStatus>(ResponseStatus::PsaErrorNotPermitted)
            },
    {
        if self.is_compatible_with_alg(alg) {
            Ok(())
        } else {
            Err(ResponseStatus::PsaErrorNotPermitted)
        }
    }

    /// Sufficient buffer size for the MAC of the specified algorithm, if
    /// compatible with the key type.
    ///
    /// # Errors
    /// - `PsaErrorNotPermitted` if the MAC algorithm is not compatible with
    ///   the key type
    pub fn mac_length(self, mac_alg: Mac) -> (r: Result<usize, ResponseStatus>)
        ensures
            r == if self.spec_is_compatible_with_alg(Algorithm::Mac(mac_alg)) {
                Ok::<usize, ResponseStatus>(self.spec_mac_length(mac_alg))
            } else {
                Err::<usize, ResponseStatus>(ResponseStatus::PsaErrorNotPermitted)
            },
    {
        match self.compatible_with_alg(Algorithm::Mac(mac_alg)) {
            Err(e) => Err(e),
            Ok(()) => match mac_alg {
                Mac::Truncated { mac_length, .. } => Ok(mac_length),
                Mac::FullLength(full) => match full {
                    crate::psa_algorithm::FullLengthMac::Hmac { hash_alg } => Ok(
                        hash_alg.hash_length(),
                    ),
                    _ => match self.key_type {
                        Type::Aes | Type::Camellia => Ok(16),
                        Type::Des => Ok(8),
                        Type::Arc4 | Type::Chacha20 => Ok(1),
                        _ => Ok(0),
                    },
                },
            },
        }
    }
}

} // verus!
