//! The algorithm table: for each signing algorithm its name, the family of
//! keys it works with, and how key material is made from raw bytes. The rest
//! of the crate asks this table and treats no algorithm specially.

use jsonwebtoken::{Algorithm, DecodingKey, EncodingKey};
use vstd::prelude::*;

use crate::backend::{
    ec_decoding_key, ec_encoding_key, ec_signing_pem, ec_verifying_key, rsa_decoding_key,
    rsa_encoding_key, rsa_signing_pem, rsa_verifying_key, secret_decoding_key,
    secret_encoding_key, signing_secret, verifying_content, verifying_family,
};
use crate::error::TokenError;

verus! {

/// The kind of key an algorithm works with.
#[derive(Debug, Clone, Copy, PartialEq, Eq, Structural)]
pub enum KeyFamily {
    /// A shared secret of any bytes: `HS256`, `HS384`, `HS512`.
    Hmac,
    /// An RSA key in a PEM file: `RS256`, `RS384`, `RS512`, `PS256`,
    /// `PS384`, `PS512`.
    Rsa,
    /// An elliptic-curve key in a PEM file: `ES256`, `ES384`.
    Ec,
}

/// The family of keys that `alg` works with.
pub open spec fn family_of(alg: Algorithm) -> KeyFamily {
    match alg {
        Algorithm::HS256 | Algorithm::HS384 | Algorithm::HS512 => KeyFamily::Hmac,
        Algorithm::ES256 | Algorithm::ES384 => KeyFamily::Ec,
        Algorithm::RS256
        | Algorithm::RS384
        | Algorithm::RS512
        | Algorithm::PS256
        | Algorithm::PS384
        | Algorithm::PS512 => KeyFamily::Rsa,
    }
}

/// The name under which `alg` stands in a token's header.
pub open spec fn name_of(alg: Algorithm) -> Seq<char> {
    match alg {
        Algorithm::HS256 => "HS256"@,
        Algorithm::HS384 => "HS384"@,
        Algorithm::HS512 => "HS512"@,
        Algorithm::ES256 => "ES256"@,
        Algorithm::ES384 => "ES384"@,
        Algorithm::RS256 => "RS256"@,
        Algorithm::RS384 => "RS384"@,
        Algorithm::RS512 => "RS512"@,
        Algorithm::PS256 => "PS256"@,
        Algorithm::PS384 => "PS384"@,
        Algorithm::PS512 => "PS512"@,
    }
}

/// Whether `key` can be made into a key to sign with under `alg`: any bytes
/// for an HMAC algorithm, a PEM file with a key of the algorithm's family
/// for the others.
pub open spec fn signing_key_accepted(alg: Algorithm, key: Seq<u8>) -> bool {
    match family_of(alg) {
        KeyFamily::Hmac => true,
        KeyFamily::Rsa => rsa_signing_pem(key),
        KeyFamily::Ec => ec_signing_pem(key),
    }
}

/// Whether `key` can be made into a key to check signatures with under
/// `alg`.
pub open spec fn verifying_key_accepted(alg: Algorithm, key: Seq<u8>) -> bool {
    match family_of(alg) {
        KeyFamily::Hmac => true,
        KeyFamily::Rsa => rsa_verifying_key(key) is Some,
        KeyFamily::Ec => ec_verifying_key(key) is Some,
    }
}

/// The secret that a key made of `key` for `alg` holds: the bytes
/// themselves under an HMAC algorithm, none under another.
pub open spec fn secret_for(alg: Algorithm, key: Seq<u8>) -> Option<Seq<u8>> {
    if family_of(alg) == KeyFamily::Hmac {
        Some(key)
    } else {
        None
    }
}

/// The bytes that a key to check signatures with holds, made of `key` for
/// `alg`: the bytes themselves under an HMAC algorithm, and under another
/// the bytes of the key taken out of the PEM file.
pub open spec fn content_for(alg: Algorithm, key: Seq<u8>) -> Seq<u8> {
    match family_of(alg) {
        KeyFamily::Hmac => key,
        KeyFamily::Rsa => rsa_verifying_key(key)->Some_0,
        KeyFamily::Ec => ec_verifying_key(key)->Some_0,
    }
}

/// The family of keys that `alg` works with.
pub fn family(alg: Algorithm) -> (f: KeyFamily)
    ensures
        f == family_of(alg),
{
    match alg {
        Algorithm::HS256 | Algorithm::HS384 | Algorithm::HS512 => KeyFamily::Hmac,
        Algorithm::ES256 | Algorithm::ES384 => KeyFamily::Ec,
        Algorithm::RS256
        | Algorithm::RS384
        | Algorithm::RS512
        | Algorithm::PS256
        | Algorithm::PS384
        | Algorithm::PS512 => KeyFamily::Rsa,
    }
}

/// The name under which `alg` stands in a token's header.
pub fn alg_to_string(alg: Algorithm) -> (name: &'static str)
    ensures
        name@ == name_of(alg),
{
    match alg {
        Algorithm::HS256 => "HS256",
        Algorithm::HS384 => "HS384",
        Algorithm::HS512 => "HS512",
        Algorithm::ES256 => "ES256",
        Algorithm::ES384 => "ES384",
        Algorithm::RS256 => "RS256",
        Algorithm::RS384 => "RS384",
        Algorithm::PS256 => "PS256",
        Algorithm::PS384 => "PS384",
        Algorithm::PS512 => "PS512",
        Algorithm::RS512 => "RS512",
    }
}

/// A value that has a name.
pub trait AsStr {
    /// The name.
    fn as_str(&self) -> &str;
}

impl AsStr for Algorithm {
    fn as_str(&self) -> (name: &str)
        ensures
            name@ == name_of(*self),
    {
        alg_to_string(*self)
    }
}

/// A value that says how key material is made from raw bytes.
pub trait Key: Sized {
    /// The key to sign with.
    fn get_encoding_key(self, key: &[u8]) -> Result<EncodingKey, TokenError>;

    /// The key to check signatures with.
    fn get_decoding_key<'a>(self, key: &'a [u8]) -> Result<DecodingKey<'a>, TokenError>;
}

impl Key for Algorithm {
    /// Makes the key to sign with: the bytes themselves as the secret of an
    /// HMAC algorithm, the key in the PEM file for the others. Fails with
    /// `InvalidKeyMaterial` exactly where the bytes are no PEM file of the
    /// algorithm's family.
    fn get_encoding_key(self, key: &[u8]) -> (r: Result<EncodingKey, TokenError>)
        ensures
            r is Ok <==> signing_key_accepted(self, key@),
            r matches Ok(made) ==> signing_secret(made) == secret_for(self, key@),
            r matches Err(e) ==> e == TokenError::InvalidKeyMaterial,
    {
        match family(self) {
            KeyFamily::Hmac => Ok(secret_encoding_key(key)),
            KeyFamily::Rsa => match rsa_encoding_key(key) {
                Ok(k) => Ok(k),
                Err(_) => Err(TokenError::InvalidKeyMaterial),
            },
            KeyFamily::Ec => match ec_encoding_key(key) {
                Ok(k) => Ok(k),
                Err(_) => Err(TokenError::InvalidKeyMaterial),
            },
        }
    }

    /// Makes the key to check signatures with, in the same way.
    fn get_decoding_key<'a>(self, key: &'a [u8]) -> (r: Result<DecodingKey<'a>, TokenError>)
        ensures
            r is Ok <==> verifying_key_accepted(self, key@),
            r matches Ok(made) ==> verifying_family(made) == family_of(self) && verifying_content(made)
                == content_for(self, key@),
            r matches Err(e) ==> e == TokenError::InvalidKeyMaterial,
    {
        match family(self) {
            KeyFamily::Hmac => Ok(secret_decoding_key(key)),
            KeyFamily::Rsa => match rsa_decoding_key(key) {
                Ok(k) => Ok(k),
                Err(_) => Err(TokenError::InvalidKeyMaterial),
            },
            KeyFamily::Ec => match ec_decoding_key(key) {
                Ok(k) => Ok(k),
                Err(_) => Err(TokenError::InvalidKeyMaterial),
            },
        }
    }
}

/// No two algorithms share a name.
pub proof fn names_are_distinct(a: Algorithm, b: Algorithm)
    requires
        name_of(a) == name_of(b),
    ensures
        a == b,
{
    reveal_strlit("HS256");
    reveal_strlit("HS384");
    reveal_strlit("HS512");
    reveal_strlit("ES256");
    reveal_strlit("ES384");
    reveal_strlit("RS256");
    reveal_strlit("RS384");
    reveal_strlit("RS512");
    reveal_strlit("PS256");
    reveal_strlit("PS384");
    reveal_strlit("PS512");
    assert("HS256"@[0] == 'H' && "HS256"@[2] == '2');
    assert("HS384"@[0] == 'H' && "HS384"@[2] == '3');
    assert("HS512"@[0] == 'H' && "HS512"@[2] == '5');
    assert("ES256"@[0] == 'E' && "ES256"@[2] == '2');
    assert("ES384"@[0] == 'E' && "ES384"@[2] == '3');
    assert("RS256"@[0] == 'R' && "RS256"@[2] == '2');
    assert("RS384"@[0] == 'R' && "RS384"@[2] == '3');
    assert("RS512"@[0] == 'R' && "RS512"@[2] == '5');
    assert("PS256"@[0] == 'P' && "PS256"@[2] == '2');
    assert("PS384"@[0] == 'P' && "PS384"@[2] == '3');
    assert("PS512"@[0] == 'P' && "PS512"@[2] == '5');
}

} // verus!
