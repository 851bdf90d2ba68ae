//! The key-pair capability that security upgrades consume.
use vstd::prelude::*;

verus! {

/// Public key material.
pub type PubKey = Vec<u8>;

/// Secret key material.
pub type SecretKey = Vec<u8>;

/// A signature operation failed.
#[derive(Clone, Copy, Debug, PartialEq, Eq, Structural)]
pub enum SigError {
    Unspecified,
}

/// Key material was malformed.
#[derive(Clone, Copy, Debug, PartialEq, Eq, Structural)]
pub enum InvalidKeyError {
    Unspecified,
}

impl SigError {
    /// Human-readable description.
    pub fn message(&self) -> (r: String)
        ensures
            r@ == "unspecified signature error"@,
    {
        match self {
            SigError::Unspecified => "unspecified signature error".to_owned(),
        }
    }
}

impl InvalidKeyError {
    /// Human-readable description.
    pub fn message(&self) -> (r: String)
        ensures
            r@ == "unspecified invalid key error"@,
    {
        match self {
            InvalidKeyError::Unspecified => "unspecified invalid key error".to_owned(),
        }
    }
}

/// The kind of a key pair.
#[derive(Clone, Copy, Debug, PartialEq, Eq, Structural)]
pub enum KeyType {
    RSA,
    Ed25519,
    Secp256k1,
    ECDSA,
}

/// The wire code of each key type.
pub open spec fn key_type_code(k: KeyType) -> u8 {
    match k {
        KeyType::RSA => 0,
        KeyType::Ed25519 => 1,
        KeyType::Secp256k1 => 2,
        KeyType::ECDSA => 3,
    }
}

impl KeyType {
    /// The wire code of this key type.
    pub fn code(&self) -> (r: u8)
        ensures
            r == key_type_code(*self),
    {
        match self {
            KeyType::RSA => 0,
            KeyType::Ed25519 => 1,
            KeyType::Secp256k1 => 2,
            KeyType::ECDSA => 3,
        }
    }
}

/// A key pair supplied by a cryptography provider: it signs, verifies and
/// exports its public and secret material.
pub trait KeyPair {
    fn verify_sig(&self, data: &[u8], sig: &[u8]) -> Result<bool, SigError>;

    fn sign(&self, data: &[u8]) -> Vec<u8>;

    fn get_pub(&self) -> Result<PubKey, InvalidKeyError>;

    fn get_priv(&self) -> Result<SecretKey, InvalidKeyError>;
}

} // verus!
