//! Native model of the cryptographic algorithm descriptors.
//!
//! An algorithm descriptor is a recursive tagged union: the top level names
//! the algorithm kind (hash, MAC, cipher, AEAD, asymmetric signature or
//! encryption, key agreement, key derivation), and several kinds nest
//! further unions. The descriptors carry no key material; they are plain
//! data, read by the operation validators and converted by the wire codec.

use vstd::prelude::*;

verus! {

/// Enumeration of hash algorithms supported.
///
/// The first three entries and SHA-1 are historically weak digests; they
/// stay decodable and encodable for backward compatibility, but new uses
/// should be steered away from them.
#[derive(Copy, Clone, Debug, PartialEq, Eq, Structural)]
pub enum Hash {
    /// MD2 (weak, kept for legacy protocols only)
    Md2,
    /// MD4 (weak, kept for legacy protocols only)
    Md4,
    /// MD5 (weak, kept for legacy protocols only)
    Md5,
    /// RIPEMD-160
    Ripemd160,
    /// SHA-1 (weak, kept for legacy protocols only)
    Sha1,
    /// SHA-224
    Sha224,
    /// SHA-256
    Sha256,
    /// SHA-384
    Sha384,
    /// SHA-512
    Sha512,
    /// SHA-512/224
    Sha512_224,
    /// SHA-512/256
    Sha512_256,
    /// SHA3-224
    Sha3_224,
    /// SHA3-256
    Sha3_256,
    /// SHA3-384
    Sha3_384,
    /// SHA3-512
    Sha3_512,
}

impl Hash {
    /// Digest size output by the hash algorithm, in bytes.
    pub open spec fn spec_hash_length(self) -> usize {
        match self {
            Hash::Md2 | Hash::Md4 | Hash::Md5 => 16usize,
            Hash::Ripemd160 | Hash::Sha1 => 20usize,
            Hash::Sha224 | Hash::Sha512_224 | Hash::Sha3_224 => 28usize,
            Hash::Sha256 | Hash::Sha512_256 | Hash::Sha3_256 => 32usize,
            Hash::Sha384 | Hash::Sha3_384 => 48usize,
            Hash::Sha3_512 | Hash::Sha512 => 64usize,
        }
    }

    /// Get the digest size output by the hash algorithm in bytes.
    pub fn hash_length(self) -> (r: usize)
        ensures
            r == self.spec_hash_length(),
    {
        match self {
            Hash::Md2 | Hash::Md4 | Hash::Md5 => 16,
            Hash::Ripemd160 | Hash::Sha1 => 20,
            Hash::Sha224 | Hash::Sha512_224 | Hash::Sha3_224 => 28,
            Hash::Sha256 | Hash::Sha512_256 | Hash::Sha3_256 => 32,
            Hash::Sha384 | Hash::Sha3_384 => 48,
            Hash::Sha3_512 | Hash::Sha512 => 64,
        }
    }
}

/// Enumeration of untruncated MAC algorithms.
#[derive(Copy, Clone, Debug, PartialEq, Eq, Structural)]
pub enum FullLengthMac {
    /// HMAC algorithm
    Hmac {
        /// Hash algorithm to use.
        hash_alg: Hash,
    },
    /// The CBC-MAC construction over a block cipher.
    CbcMac,
    /// The CMAC construction over a block cipher.
    Cmac,
}

/// Enumeration of message authentication code algorithms supported.
#[derive(Copy, Clone, Debug, PartialEq, Eq, Structural)]
pub enum Mac {
    /// Untruncated MAC algorithm
    FullLength(FullLengthMac),
    /// Truncated MAC algorithm
    Truncated {
        /// The MAC algorithm to truncate.
        mac_alg: FullLengthMac,
        /// Desired length of the truncated MAC in bytes.
        mac_length: usize,
    },
}

impl Mac {
    /// Whether the MAC algorithm is an HMAC algorithm, truncated or not.
    pub open spec fn spec_is_hmac(self) -> bool {
        match self {
            Mac::FullLength(FullLengthMac::Hmac { .. }) => true,
            Mac::Truncated { mac_alg: FullLengthMac::Hmac { .. }, .. } => true,
            _ => false,
        }
    }

    /// Whether the MAC algorithm is a construction over a block cipher.
    pub open spec fn spec_is_block_cipher_needed(self) -> bool {
        match self {
            Mac::FullLength(FullLengthMac::CbcMac) => true,
            Mac::FullLength(FullLengthMac::Cmac) => true,
            Mac::Truncated { mac_alg: FullLengthMac::CbcMac, .. } => true,
            Mac::Truncated { mac_alg: FullLengthMac::Cmac, .. } => true,
            _ => false,
        }
    }

    /// Check if the MAC algorithm is a HMAC algorithm, truncated or not.
    pub fn is_hmac(self) -> (r: bool)
        ensures
            r == self.spec_is_hmac(),
    {
        match self {
            Mac::FullLength(FullLengthMac::Hmac { .. }) => true,
            Mac::Truncated { mac_alg: FullLengthMac::Hmac { .. }, .. } => true,
            _ => false,
        }
    }

    /// Check if the MAC algorithm is a construction over a block cipher.
    pub fn is_block_cipher_needed(self) -> (r: bool)
        ensures
            r == self.spec_is_block_cipher_needed(),
    {
        match self {
            Mac::FullLength(FullLengthMac::CbcMac) => true,
            Mac::FullLength(FullLengthMac::Cmac) => true,
            Mac::Truncated { mac_alg: FullLengthMac::CbcMac, .. } => true,
            Mac::Truncated { mac_alg: FullLengthMac::Cmac, .. } => true,
            _ => false,
        }
    }
}

/// Enumeration of symmetric encryption algorithms supported.
#[derive(Copy, Clone, Debug, PartialEq, Eq, Structural)]
pub enum Cipher {
    /// The stream cipher mode of a stream cipher algorithm.
    StreamCipher,
    /// A stream cipher built using the Counter (CTR) mode of a block cipher.
    Ctr,
    /// A stream cipher built using the Cipher Feedback (CFB) mode of a block cipher.
    Cfb,
    /// A stream cipher built using the Output Feedback (OFB) mode of a block cipher.
    Ofb,
    /// The XTS cipher mode of a block cipher.
    Xts,
    /// The Electronic Code Book (ECB) mode of a block cipher, with no padding.
    EcbNoPadding,
    /// The Cipher Block Chaining (CBC) mode of a block cipher, with no padding.
    CbcNoPadding,
    /// The Cipher Block Chaining (CBC) mode of a block cipher, with PKCS#7 padding.
    CbcPkcs7,
}

impl Cipher {
    /// Whether the cipher algorithm is a mode of a block cipher.
    pub open spec fn spec_is_block_cipher_mode(self) -> bool {
        match self {
            Cipher::Ctr | Cipher::Cfb | Cipher::Ofb | Cipher::Xts | Cipher::EcbNoPadding
                | Cipher::CbcNoPadding | Cipher::CbcPkcs7 => true,
            Cipher::StreamCipher => false,
        }
    }

    /// Check if the cipher algorithm is a mode of a block cipher.
    pub fn is_block_cipher_mode(self) -> (r: bool)
        ensures
            r == self.spec_is_block_cipher_mode(),
    {
        match self {
            Cipher::Ctr | Cipher::Cfb | Cipher::Ofb | Cipher::Xts | Cipher::EcbNoPadding
                | Cipher::CbcNoPadding | Cipher::CbcPkcs7 => true,
            Cipher::StreamCipher => false,
        }
    }
}

/// AEAD algorithm with default length tag enumeration.
#[derive(Copy, Clone, Debug, PartialEq, Eq, Structural)]
pub enum AeadWithDefaultLengthTag {
    /// The CCM authenticated encryption algorithm.
    Ccm,
    /// The GCM authenticated encryption algorithm.
    Gcm,
    /// The Chacha20-Poly1305 AEAD algorithm.
    Chacha20Poly1305,
}

/// Enumeration of authenticated encryption with additional data algorithms
/// supported.
#[derive(Copy, Clone, Debug, PartialEq, Eq, Structural)]
pub enum Aead {
    /// AEAD algorithm with a default length tag
    AeadWithDefaultLengthTag(AeadWithDefaultLengthTag),
    /// AEAD algorithm with a shortened tag.
    AeadWithShortenedTag {
        /// An AEAD algorithm.
        aead_alg: AeadWithDefaultLengthTag,
        /// Desired length of the authentication tag in bytes.
        tag_length: usize,
    },
}

impl Aead {
    /// Whether the AEAD algorithm needs a block cipher.
    pub open spec fn spec_is_aead_on_block_cipher(self) -> bool {
        match self {
            Aead::AeadWithDefaultLengthTag(AeadWithDefaultLengthTag::Ccm) => true,
            Aead::AeadWithDefaultLengthTag(AeadWithDefaultLengthTag::Gcm) => true,
            Aead::AeadWithShortenedTag { aead_alg: AeadWithDefaultLengthTag::Ccm, .. } => true,
            Aead::AeadWithShortenedTag { aead_alg: AeadWithDefaultLengthTag::Gcm, .. } => true,
            _ => false,
        }
    }

    /// Whether the AEAD algorithm is the (truncated or not) Chacha20-Poly1305
    /// AEAD algorithm.
    pub open spec fn spec_is_chacha20_poly1305_alg(self) -> bool {
        match self {
            Aead::AeadWithDefaultLengthTag(AeadWithDefaultLengthTag::Chacha20Poly1305) => true,
            Aead::AeadWithShortenedTag {
                aead_alg: AeadWithDefaultLengthTag::Chacha20Poly1305,
                ..
            } => true,
            _ => false,
        }
    }

    /// Check if the AEAD algorithm needs a block cipher.
    pub fn is_aead_on_block_cipher(self) -> (r: bool)
        ensures
            r == self.spec_is_aead_on_block_cipher(),
    {
        match self {
            Aead::AeadWithDefaultLengthTag(AeadWithDefaultLengthTag::Ccm) => true,
            Aead::AeadWithDefaultLengthTag(AeadWithDefaultLengthTag::Gcm) => true,
            Aead::AeadWithShortenedTag { aead_alg: AeadWithDefaultLengthTag::Ccm, .. } => true,
            Aead::AeadWithShortenedTag { aead_alg: AeadWithDefaultLengthTag::Gcm, .. } => true,
            _ => false,
        }
    }

    /// Check if this AEAD algorithm is the (truncated or not)
    /// Chacha20-Poly1305 AEAD algorithm.
    pub fn is_chacha20_poly1305_alg(self) -> (r: bool)
        ensures
            r == self.spec_is_chacha20_poly1305_alg(),
    {
        match self {
            Aead::AeadWithDefaultLengthTag(AeadWithDefaultLengthTag::Chacha20Poly1305) => true,
            Aead::AeadWithShortenedTag {
                aead_alg: AeadWithDefaultLengthTag::Chacha20Poly1305,
                ..
            } => true,
            _ => false,
        }
    }
}

/// Enumeration of hash algorithms used in "hash-and-sign" algorithms.
#[derive(Copy, Clone, Debug, PartialEq, Eq, Structural)]
pub enum SignHash {
    /// A specific hash algorithm to choose.
    Specific(Hash),
    /// In a hash-and-sign algorithm policy, allow any hash algorithm.
    ///
    /// This value must not be used to build an algorithm specification to
    /// perform an operation; it is only valid to build policies, for
    /// signature algorithms.
    Any,
}

impl SignHash {
    /// Whether this value, used as a policy, permits the given hash choice
    /// for a cryptographic operation: a wildcard permits any specific hash,
    /// while a specific policy permits only itself, and the wildcard is
    /// never permitted as an operation.
    pub open spec fn spec_is_alg_permitted(self, alg: SignHash) -> bool {
        match alg {
            SignHash::Specific(_) => self == SignHash::Any || self == alg,
            SignHash::Any => false,
        }
    }

    /// Check if the alg given for a cryptographic operation is permitted to
    /// be used with this algorithm as a policy.
    pub fn is_alg_permitted(self, alg: SignHash) -> (r: bool)
        ensures
            r == self.spec_is_alg_permitted(alg),
    {
        match alg {
            SignHash::Specific(_) => self == SignHash::Any || self == alg,
            SignHash::Any => false,
        }
    }
}

/// Enumeration of asymmetric signing algorithms supported.
#[derive(Copy, Clone, Debug, PartialEq, Eq, Structural)]
pub enum AsymmetricSignature {
    /// RSA PKCS#1 v1.5 signature with hashing.
    RsaPkcs1v15Sign {
        /// A hash algorithm to use.
        hash_alg: SignHash,
    },
    /// Raw PKCS#1 v1.5 signature.
    RsaPkcs1v15SignRaw,
    /// RSA PSS signature with hashing.
    RsaPss {
        /// A hash algorithm to use.
        hash_alg: SignHash,
    },
    /// ECDSA signature with hashing.
    Ecdsa {
        /// A hash algorithm to use.
        hash_alg: SignHash,
    },
    /// ECDSA signature without hashing.
    EcdsaAny,
    /// Deterministic ECDSA signature with hashing.
    DeterministicEcdsa {
        /// A hash algorithm to use.
        hash_alg: SignHash,
    },
}

impl AsymmetricSignature {
    /// Whether this value, used as a policy, permits the given signature
    /// algorithm for a cryptographic operation: the hash-and-sign kinds
    /// defer to their hash policy (which may be the wildcard), the others
    /// permit only themselves.
    pub open spec fn spec_is_alg_permitted(self, alg: AsymmetricSignature) -> bool {
        match self {
            AsymmetricSignature::RsaPkcs1v15Sign { hash_alg: hash_policy } => match alg {
                AsymmetricSignature::RsaPkcs1v15Sign { hash_alg } => hash_policy.spec_is_alg_permitted(
                    hash_alg,
                ),
                _ => false,
            },
            AsymmetricSignature::RsaPss { hash_alg: hash_policy } => match alg {
                AsymmetricSignature::RsaPss { hash_alg } => hash_policy.spec_is_alg_permitted(
                    hash_alg,
                ),
                _ => false,
            },
            AsymmetricSignature::Ecdsa { hash_alg: hash_policy } => match alg {
                AsymmetricSignature::Ecdsa { hash_alg } => hash_policy.spec_is_alg_permitted(
                    hash_alg,
                ),
                _ => false,
            },
            AsymmetricSignature::DeterministicEcdsa { hash_alg: hash_policy } => match alg {
                AsymmetricSignature::DeterministicEcdsa { hash_alg } => hash_policy.spec_is_alg_permitted(
                    hash_alg,
                ),
                _ => false,
            },
            _ => self == alg,
        }
    }

    /// Whether this is an RSA algorithm.
    pub open spec fn spec_is_rsa_alg(self) -> bool {
        match self {
            AsymmetricSignature::RsaPkcs1v15Sign { .. } => true,
            AsymmetricSignature::RsaPkcs1v15SignRaw => true,
            AsymmetricSignature::RsaPss { .. } => true,
            _ => false,
        }
    }

    /// Whether this is an ECC algorithm.
    pub open spec fn spec_is_ecc_alg(self) -> bool {
        match self {
            AsymmetricSignature::Ecdsa { .. } => true,
            AsymmetricSignature::EcdsaAny => true,
            AsymmetricSignature::DeterministicEcdsa { .. } => true,
            _ => false,
        }
    }

    /// Check if the alg given for a cryptographic operation is permitted to
    /// be used with this algorithm as a policy.
    pub fn is_alg_permitted(self, alg: AsymmetricSignature) -> (r: bool)
        ensures
            r == self.spec_is_alg_permitted(alg),
    {
        match self {
            AsymmetricSignature::RsaPkcs1v15Sign { hash_alg: hash_policy } => match alg {
                AsymmetricSignature::RsaPkcs1v15Sign { hash_alg } => hash_policy.is_alg_permitted(
                    hash_alg,
                ),
                _ => false,
            },
            AsymmetricSignature::RsaPss { hash_alg: hash_policy } => match alg {
                AsymmetricSignature::RsaPss { hash_alg } => hash_policy.is_alg_permitted(hash_alg),
                _ => false,
            },
            AsymmetricSignature::Ecdsa { hash_alg: hash_policy } => match alg {
                AsymmetricSignature::Ecdsa { hash_alg } => hash_policy.is_alg_permitted(hash_alg),
                _ => false,
            },
            AsymmetricSignature::DeterministicEcdsa { hash_alg: hash_policy } => match alg {
                AsymmetricSignature::DeterministicEcdsa { hash_alg } => hash_policy.is_alg_permitted(
                    hash_alg,
                ),
                _ => false,
            },
            _ => self == alg,
        }
    }

    /// Check if this is an RSA algorithm.
    pub fn is_rsa_alg(self) -> (r: bool)
        ensures
            r == self.spec_is_rsa_alg(),
    {
        match self {
            AsymmetricSignature::RsaPkcs1v15Sign { .. } => true,
            AsymmetricSignature::RsaPkcs1v15SignRaw => true,
            AsymmetricSignature::RsaPss { .. } => true,
            _ => false,
        }
    }

    /// Check if this is an ECC algorithm.
    pub fn is_ecc_alg(self) -> (r: bool)
        ensures
            r == self.spec_is_ecc_alg(),
    {
        match self {
            AsymmetricSignature::Ecdsa { .. } => true,
            AsymmetricSignature::EcdsaAny => true,
            AsymmetricSignature::DeterministicEcdsa { .. } => true,
            _ => false,
        }
    }
}

/// Enumeration of asymmetric encryption algorithms supported.
#[derive(Copy, Clone, Debug, PartialEq, Eq, Structural)]
pub enum AsymmetricEncryption {
    /// RSA PKCS#1 v1.5 encryption.
    RsaPkcs1v15Crypt,
    /// RSA OAEP encryption.
    RsaOaep {
        /// A hash algorithm to use.
        hash_alg: Hash,
    },
}

/// Enumeration of raw key agreement algorithms supported.
#[derive(Copy, Clone, Debug, PartialEq, Eq, Structural)]
pub enum RawKeyAgreement {
    /// The finite-field Diffie-Hellman (DH) key agreement algorithm.
    Ffdh,
    /// The elliptic curve Diffie-Hellman (ECDH) key agreement algorithm.
    Ecdh,
}

/// Enumeration of key agreement algorithms supported.
#[derive(Copy, Clone, Debug, PartialEq, Eq, Structural)]
pub enum KeyAgreement {
    /// A raw key agreement algorithm.
    Raw(RawKeyAgreement),
    /// A key agreement algorithm combined with a key derivation algorithm.
    WithKeyDerivation {
        /// A raw key agreement algorithm.
        ka_alg: RawKeyAgreement,
        /// A key derivation algorithm to use on the shared secret.
        kdf_alg: KeyDerivation,
    },
}

/// Enumeration of key derivation functions supported.
#[derive(Copy, Clone, Debug, PartialEq, Eq, Structural)]
pub enum KeyDerivation {
    /// HKDF algorithm.
    Hkdf {
        /// A hash algorithm to use.
        hash_alg: Hash,
    },
    /// TLS-1.2 PRF algorithm.
    Tls12Prf {
        /// A hash algorithm to use.
        hash_alg: Hash,
    },
    /// TLS-1.2 PSK-to-MasterSecret algorithm.
    Tls12PskToMs {
        /// A hash algorithm to use.
        hash_alg: Hash,
    },
}

/// Enumeration of possible algorithm definitions.
///
/// Each variant of the enum contains a main algorithm type, required for
/// that variant.
#[derive(Copy, Clone, Debug, PartialEq, Eq, Structural)]
pub enum Algorithm {
    /// An invalid algorithm identifier value.
    ///
    /// As a key policy it does not allow any cryptographic operation with
    /// the key; the key can still be used for non-cryptographic actions
    /// such as exporting, if permitted by the usage flags.
    NoAlgorithm,
    /// Hash algorithm.
    Hash(Hash),
    /// MAC algorithm.
    Mac(Mac),
    /// Symmetric Cipher algorithm.
    Cipher(Cipher),
    /// Authenticated Encryption with Associated Data (AEAD) algorithm.
    Aead(Aead),
    /// Public-key signature algorithm.
    AsymmetricSignature(AsymmetricSignature),
    /// Public-key encryption algorithm.
    AsymmetricEncryption(AsymmetricEncryption),
    /// Key agreement algorithm.
    KeyAgreement(KeyAgreement),
    /// Key derivation algorithm.
    KeyDerivation(KeyDerivation),
}

impl Algorithm {
    /// Whether the algorithm is an HMAC algorithm, truncated or not.
    pub open spec fn spec_is_hmac(self) -> bool {
        match self {
            Algorithm::Mac(mac_alg) => mac_alg.spec_is_hmac(),
            _ => false,
        }
    }

    /// Check if the algorithm is a HMAC algorithm, truncated or not.
    pub fn is_hmac(self) -> (r: bool)
        ensures
            r == self.spec_is_hmac(),
    {
        match self {
            Algorithm::Mac(mac_alg) => mac_alg.is_hmac(),
            _ => false,
        }
    }
}

} // verus!
