//! Reading a token without checking it, and the form in which a token that
//! was read is handed to the caller.
//!
//! [`decode`] checks neither the signature nor any claim: what it returns
//! says what a token holds, never that the token can be believed.

use jsonwebtoken::Header;
use vstd::prelude::*;

use crate::backend::{
    claims_fault, header_fault, parsed_claims, parsed_header, read_header, read_unchecked,
};
use crate::claims::ClaimSet;
use crate::error::TokenError;
use crate::header::{header_view, HeaderView};
use crate::token::{claims_segment, dots, header_segment, signature_segment, split};

verus! {

/// What a caller may ask for when a token is read without checks.
#[derive(Debug, Clone, Copy)]
pub struct DecodeOptions {
    /// Whether header and signature are wanted beside the claims; not
    /// where it is left out.
    pub complete: Option<bool>,
}

impl Default for DecodeOptions {
    /// The options of a caller who asks for nothing: the claims alone.
    fn default() -> (options: DecodeOptions)
        ensures
            options.complete == Some(false),
    {
        DecodeOptions { complete: Some(false) }
    }
}

/// Whether the option asks for header and signature beside the claims.
pub open spec fn wants_all(complete: Option<bool>) -> bool {
    complete == Some(true)
}

/// A token as it is handed to the caller.
#[derive(Debug)]
pub enum Decoded {
    /// The claims alone.
    Claims(ClaimSet),
    /// The claims with the header and the signature segment as it stood in
    /// the token.
    Complete { payload: ClaimSet, header: Header, signature: String },
}

impl Decoded {
    /// The claims.
    pub open spec fn claims(self) -> Map<Seq<char>, Seq<char>> {
        match self {
            Decoded::Claims(claims) => claims@,
            Decoded::Complete { payload, .. } => payload@,
        }
    }

    /// Whether this is the token that holds `header`, `claims` and
    /// `signature`, in the form that was asked for.
    pub open spec fn shows(self, all: bool, header: HeaderView, claims: Map<Seq<char>, Seq<char>>, signature: Seq<char>) -> bool {
        match self {
            Decoded::Claims(shown) => !all && shown@ == claims,
            Decoded::Complete { payload, header: shown, signature: text } => {
                &&& all
                &&& payload@ == claims
                &&& header_view(shown) == header
                &&& text@ == signature
            },
        }
    }

    /// The claims.
    pub fn payload(&self) -> (claims: &ClaimSet)
        ensures
            claims@ == self.claims(),
    {
        match self {
            Decoded::Claims(claims) => claims,
            Decoded::Complete { payload, .. } => payload,
        }
    }

    /// Puts what was read into the form that was asked for.
    pub fn shape(complete: Option<bool>, header: Header, claims: ClaimSet, signature: &str) -> (decoded:
        Decoded)
        ensures
            decoded.shows(wants_all(complete), header_view(header), claims@, signature@),
    {
        let all = match complete {
            Some(flag) => flag,
            None => false,
        };
        if all {
            Decoded::Complete { payload: claims, header, signature: signature.to_owned() }
        } else {
            Decoded::Claims(claims)
        }
    }
}

/// What holds of the outcome `r` of reading `token` without checks.
///
/// A text without exactly two `.` is a `MalformedToken`. Else the header
/// segment is read, then the claims segment; the signature segment is not
/// looked at. Where both can be read the token is handed out in the form
/// asked for. A header segment that cannot be read is an
/// `UnsupportedAlgorithm` where it is JSON that names no known algorithm,
/// and a `MalformedToken` else; a claims segment that cannot be read is
/// `InvalidClaims` where it fails as JSON, and a `MalformedToken` else.
pub open spec fn decoded(r: Result<Decoded, TokenError>, token: Seq<char>, complete: Option<bool>) -> bool {
    if dots(token) != 2 {
        r matches Err(e) && e == TokenError::MalformedToken
    } else {
        match (parsed_header(header_segment(token)), parsed_claims(claims_segment(token))) {
            (Some(header), Some(claims)) => r matches Ok(shown) && shown.shows(
                wants_all(complete),
                header,
                claims,
                signature_segment(token),
            ),
            (Some(_), None) => r matches Err(e) && e == TokenError::of_claims_failure(
                claims_fault(claims_segment(token)),
            ),
            (None, _) => r matches Err(e) && e == TokenError::of_header_failure(
                header_fault(header_segment(token)),
            ),
        }
    }
}

/// Reads a token without checking its signature or any of its claims.
pub fn decode(token: &str, options: &DecodeOptions) -> (r: Result<Decoded, TokenError>)
    ensures
        decoded(r, token@, options.complete),
{
    let signature = match split(token) {
        Ok(segments) => segments.2,
        Err(e) => {
            return Err(e);
        },
    };
    match read_header(token) {
        Ok(_) => {},
        Err(fault) => {
            return Err(TokenError::from_header_failure(fault));
        },
    }
    match read_unchecked(token) {
        Ok(parts) => Ok(Decoded::shape(options.complete, parts.0, ClaimSet::from_entries(parts.1), signature)),
        Err(fault) => Err(TokenError::from_claims_failure(fault)),
    }
}

} // verus!
