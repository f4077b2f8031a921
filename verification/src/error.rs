//! The failures a caller can be handed, and how the failures that
//! `jsonwebtoken` reports are sorted into them.

use vstd::prelude::*;

verus! {

/// Why a token could not be issued, read or accepted.
#[derive(Debug, Clone, Copy, PartialEq, Eq, Structural)]
pub enum TokenError {
    /// The token does not have three segments, or a segment is not
    /// base64url text.
    MalformedToken,
    /// The claims segment does not hold a JSON object that can be read.
    InvalidClaims,
    /// The key bytes are not a key of the kind the algorithm calls for.
    InvalidKeyMaterial,
    /// The header names no known algorithm, or one other than those in
    /// effect for the call.
    UnsupportedAlgorithm,
    /// The signature does not belong to the header and claims.
    SignatureInvalid,
    /// The `exp` claim lies in the past.
    TokenExpired,
    /// The `nbf` claim lies in the future.
    TokenNotYetValid,
    /// The audience, issuer or subject is not the expected one.
    ClaimMismatch,
}

/// Which check refused a token.
#[derive(Debug, Clone, Copy, PartialEq, Eq, Structural)]
pub enum Rejection {
    /// The signature does not belong to the header and claims.
    Signature,
    /// `exp` is past.
    Expired,
    /// `nbf` is still to come.
    Immature,
    /// `iss` is not the expected issuer.
    Issuer,
    /// `sub` is not the expected subject.
    Subject,
    /// `aud` names none of the expected audience.
    Audience,
}

/// What `jsonwebtoken` reports when a call fails, kind for kind; a check
/// of the claims that refuses a token is a [`Rejection`] and stands here
/// as `Other`.
#[derive(Debug, Clone, Copy, PartialEq, Eq, Structural)]
pub enum FailureKind {
    InvalidToken,
    InvalidSignature,
    InvalidEcdsaKey,
    InvalidRsaKey,
    InvalidAlgorithmName,
    InvalidKeyFormat,
    InvalidAlgorithm,
    Base64,
    Json,
    Utf8,
    Crypto,
    /// Any other kind.
    Other,
}

/// How `serde_json` sorts a JSON failure.
#[derive(Debug, Clone, Copy, PartialEq, Eq, Structural)]
pub enum JsonFault {
    /// Reading or writing bytes failed.
    Io,
    /// The text is not JSON.
    Syntax,
    /// The text is JSON of the wrong shape: a missing field, a value of
    /// the wrong type, an unknown name.
    Data,
    /// The text ends too early.
    Eof,
}

impl TokenError {
    /// The name of the kind of error.
    pub open spec fn name_of(self) -> Seq<char> {
        match self {
            TokenError::MalformedToken => "MalformedToken"@,
            TokenError::InvalidClaims => "InvalidClaims"@,
            TokenError::InvalidKeyMaterial => "InvalidKeyMaterial"@,
            TokenError::UnsupportedAlgorithm => "UnsupportedAlgorithm"@,
            TokenError::SignatureInvalid => "SignatureInvalid"@,
            TokenError::TokenExpired => "TokenExpired"@,
            TokenError::TokenNotYetValid => "TokenNotYetValid"@,
            TokenError::ClaimMismatch => "ClaimMismatch"@,
        }
    }

    /// The name of the kind of error, by which a caller can tell the kinds
    /// apart.
    pub fn name(&self) -> (name: &'static str)
        ensures
            name@ == self.name_of(),
    {
        match self {
            TokenError::MalformedToken => "MalformedToken",
            TokenError::InvalidClaims => "InvalidClaims",
            TokenError::InvalidKeyMaterial => "InvalidKeyMaterial",
            TokenError::UnsupportedAlgorithm => "UnsupportedAlgorithm",
            TokenError::SignatureInvalid => "SignatureInvalid",
            TokenError::TokenExpired => "TokenExpired",
            TokenError::TokenNotYetValid => "TokenNotYetValid",
            TokenError::ClaimMismatch => "ClaimMismatch",
        }
    }

    /// The error that stands for a check that refused a token.
    pub open spec fn of_rejection(rejection: Rejection) -> TokenError {
        match rejection {
            Rejection::Signature => TokenError::SignatureInvalid,
            Rejection::Expired => TokenError::TokenExpired,
            Rejection::Immature => TokenError::TokenNotYetValid,
            Rejection::Issuer | Rejection::Subject | Rejection::Audience => TokenError::ClaimMismatch,
        }
    }

    /// The error that stands for a failure met while a token is checked,
    /// once its header has been read.
    pub open spec fn of_failure(kind: FailureKind) -> TokenError {
        match kind {
            FailureKind::InvalidToken | FailureKind::Base64 | FailureKind::Utf8 | FailureKind::Other => {
                TokenError::MalformedToken
            },
            FailureKind::Json => TokenError::InvalidClaims,
            FailureKind::InvalidSignature => TokenError::SignatureInvalid,
            FailureKind::InvalidEcdsaKey
            | FailureKind::InvalidRsaKey
            | FailureKind::InvalidKeyFormat
            | FailureKind::Crypto => TokenError::InvalidKeyMaterial,
            FailureKind::InvalidAlgorithmName | FailureKind::InvalidAlgorithm => {
                TokenError::UnsupportedAlgorithm
            },
        }
    }

    /// The error that stands for a failure of the signing call: a key that
    /// cannot sign under the algorithm, unless the failure says otherwise.
    pub open spec fn of_signing_failure(kind: FailureKind) -> TokenError {
        match kind {
            FailureKind::Json => TokenError::InvalidClaims,
            FailureKind::InvalidAlgorithm => TokenError::UnsupportedAlgorithm,
            _ => TokenError::InvalidKeyMaterial,
        }
    }

    /// The error that stands for a failure to read the header segment.
    /// JSON of the wrong shape means that the header names no algorithm
    /// this crate knows; any other failure means that the segment is
    /// damaged.
    pub open spec fn of_header_failure(fault: Option<JsonFault>) -> TokenError {
        if fault == Some(JsonFault::Data) {
            TokenError::UnsupportedAlgorithm
        } else {
            TokenError::MalformedToken
        }
    }

    /// The error that stands for a failure to read the claims segment: a
    /// JSON failure means that the segment holds no JSON object; any other
    /// failure means that the segment is damaged.
    pub open spec fn of_claims_failure(fault: Option<JsonFault>) -> TokenError {
        if fault is Some {
            TokenError::InvalidClaims
        } else {
            TokenError::MalformedToken
        }
    }

    /// Sorts a check that refused a token.
    pub fn from_rejection(rejection: Rejection) -> (e: TokenError)
        ensures
            e == Self::of_rejection(rejection),
    {
        match rejection {
            Rejection::Signature => TokenError::SignatureInvalid,
            Rejection::Expired => TokenError::TokenExpired,
            Rejection::Immature => TokenError::TokenNotYetValid,
            Rejection::Issuer => TokenError::ClaimMismatch,
            Rejection::Subject => TokenError::ClaimMismatch,
            Rejection::Audience => TokenError::ClaimMismatch,
        }
    }

    /// Sorts a failure met while a token is checked.
    pub fn from_failure(kind: FailureKind) -> (e: TokenError)
        ensures
            e == Self::of_failure(kind),
    {
        match kind {
            FailureKind::InvalidToken => TokenError::MalformedToken,
            FailureKind::Base64 => TokenError::MalformedToken,
            FailureKind::Utf8 => TokenError::MalformedToken,
            FailureKind::Other => TokenError::MalformedToken,
            FailureKind::Json => TokenError::InvalidClaims,
            FailureKind::InvalidSignature => TokenError::SignatureInvalid,
            FailureKind::InvalidEcdsaKey => TokenError::InvalidKeyMaterial,
            FailureKind::InvalidRsaKey => TokenError::InvalidKeyMaterial,
            FailureKind::InvalidKeyFormat => TokenError::InvalidKeyMaterial,
            FailureKind::Crypto => TokenError::InvalidKeyMaterial,
            FailureKind::InvalidAlgorithmName => TokenError::UnsupportedAlgorithm,
            FailureKind::InvalidAlgorithm => TokenError::UnsupportedAlgorithm,
        }
    }

    /// Sorts a failure of the signing call.
    pub fn from_signing_failure(kind: FailureKind) -> (e: TokenError)
        ensures
            e == Self::of_signing_failure(kind),
    {
        match kind {
            FailureKind::Json => TokenError::InvalidClaims,
            FailureKind::InvalidAlgorithm => TokenError::UnsupportedAlgorithm,
            _ => TokenError::InvalidKeyMaterial,
        }
    }

    /// Sorts a failure to read the header segment.
    pub fn from_header_failure(fault: Option<JsonFault>) -> (e: TokenError)
        ensures
            e == Self::of_header_failure(fault),
    {
        match fault {
            Some(JsonFault::Data) => TokenError::UnsupportedAlgorithm,
            _ => TokenError::MalformedToken,
        }
    }

    /// Sorts a failure to read the claims segment.
    pub fn from_claims_failure(fault: Option<JsonFault>) -> (e: TokenError)
        ensures
            e == Self::of_claims_failure(fault),
    {
        match fault {
            Some(_) => TokenError::InvalidClaims,
            None => TokenError::MalformedToken,
        }
    }
}

/// No two kinds of error share a name.
pub proof fn error_names_are_distinct(a: TokenError, b: TokenError)
    requires
        a.name_of() == b.name_of(),
    ensures
        a == b,
{
    reveal_strlit("MalformedToken");
    reveal_strlit("InvalidClaims");
    reveal_strlit("InvalidKeyMaterial");
    reveal_strlit("UnsupportedAlgorithm");
    reveal_strlit("SignatureInvalid");
    reveal_strlit("TokenExpired");
    reveal_strlit("TokenNotYetValid");
    reveal_strlit("ClaimMismatch");
    assert("MalformedToken"@.len() == 14 && "InvalidClaims"@.len() == 13);
    assert("InvalidKeyMaterial"@.len() == 18 && "UnsupportedAlgorithm"@.len() == 20);
    assert("SignatureInvalid"@.len() == 16 && "TokenExpired"@.len() == 12);
    assert("TokenNotYetValid"@.len() == 16 && "ClaimMismatch"@.len() == 13);
    assert("SignatureInvalid"@[0] == 'S' && "TokenNotYetValid"@[0] == 'T');
    assert("InvalidClaims"@[0] == 'I' && "ClaimMismatch"@[0] == 'C');
}

} // verus!
