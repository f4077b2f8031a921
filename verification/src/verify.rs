//! Accepting a token: the rules that the options call for, the key that
//! the first accepted algorithm calls for, and the checks of signature and
//! claims.

use jsonwebtoken::{Algorithm, DecodingKey, Header, Validation};
use vstd::prelude::*;

use crate::algorithm::{content_for, family, family_of, verifying_key_accepted, Key, KeyFamily};
use crate::backend::{
    all_of_family, claims_verdict, failure_kind, header_fault, hmac_signature, is_string_for,
    listed, parsed_claims, parsed_header, quoted, read_checked, read_header, read_unchecked,
    secret_decoding_key, signature_taken, texts_in, texts_of, verifying_content, verifying_family,
    with_audience,
};
use crate::claims::{entries_map, ClaimSet};
use crate::decode::{wants_all, Decoded};
use crate::error::{FailureKind, Rejection, TokenError};
use crate::header::{header_view, text_of};
use crate::token::{claims_segment, dots, header_segment, message_of, signature_segment, split};

verus! {

/// What a caller may ask for when a token is checked.
#[derive(Debug)]
pub struct VerifyOptions {
    /// The algorithms a token may be signed with.
    pub algorithms: Vec<Algorithm>,
    /// Whom the token must be meant for: `aud` must name one of these.
    pub audience: Option<Vec<String>>,
    /// Whether header and signature are wanted beside the claims; not
    /// where it is left out.
    pub complete: Option<bool>,
    /// Who must have issued the token: `iss` must be this.
    pub issuer: Option<String>,
    /// The token's own name. It is kept for the caller and takes no part
    /// in the checks.
    pub jwtid: Option<String>,
    /// Whether `exp` goes unchecked. Where it is `true` a token is taken
    /// whenever it expired; where it is `false` or left out, a token whose
    /// `exp` is past is refused. A token without `exp` never expires.
    pub ignore_expiration: Option<bool>,
    /// Whether `nbf` is looked at. Against its name, it is `true` that
    /// turns the check on: a token whose `nbf` is still to come is then
    /// refused. Where it is `false` or left out, `nbf` goes unchecked. A
    /// token without `nbf` is good at once.
    pub ignore_not_before: Option<bool>,
    /// Whom the token must speak of: `sub` must be this.
    pub subject: Option<String>,
}

impl Default for VerifyOptions {
    /// The options of a caller who asks for nothing: `HS256` alone is
    /// accepted, `exp` is checked, `nbf` is not, and the claims alone are
    /// handed out.
    fn default() -> (options: VerifyOptions)
        ensures
            options.algorithms@ == seq![Algorithm::HS256],
            options.audience is None,
            options.complete == Some(false),
            options.issuer is None,
            options.jwtid is None,
            options.ignore_expiration == Some(false),
            options.ignore_not_before == Some(false),
            options.subject is None,
    {
        VerifyOptions {
            algorithms: vec![Algorithm::HS256],
            audience: None,
            complete: Some(false),
            issuer: None,
            jwtid: None,
            ignore_expiration: Some(false),
            ignore_not_before: Some(false),
            subject: None,
        }
    }
}

impl VerifyOptions {
    /// Whether `exp` is checked: always, unless the caller asked to ignore
    /// it.
    pub open spec fn checks_expiry(&self) -> bool {
        self.ignore_expiration != Some(true)
    }

    /// Whether `nbf` is checked: only where the caller set the option.
    pub open spec fn checks_not_before(&self) -> bool {
        self.ignore_not_before == Some(true)
    }

    /// The family of the key to check signatures with: that of the first
    /// accepted algorithm; HMAC where no algorithm is accepted.
    pub open spec fn key_family(&self) -> KeyFamily {
        if self.algorithms@.len() > 0 {
            family_of(self.algorithms@[0])
        } else {
            KeyFamily::Hmac
        }
    }

    /// Whether the key to check signatures with is an HMAC secret.
    pub open spec fn uses_secret(&self) -> bool {
        self.key_family() == KeyFamily::Hmac
    }

    /// Whether `key` can be made into the key to check signatures with:
    /// the key of the first accepted algorithm, or a secret where no
    /// algorithm is accepted.
    pub open spec fn key_accepted(&self, key: Seq<u8>) -> bool {
        self.algorithms@.len() > 0 ==> verifying_key_accepted(self.algorithms@[0], key)
    }

    /// The bytes that the key to check signatures with holds, made of
    /// `key`.
    pub open spec fn key_content(&self, key: Seq<u8>) -> Seq<u8> {
        if self.algorithms@.len() > 0 {
            content_for(self.algorithms@[0], key)
        } else {
            key
        }
    }

    /// Whether `rules` hold what these options say of the claims: no
    /// leeway, issuer and subject as given, and the audience as the set of
    /// the texts given.
    pub open spec fn expects(&self, rules: Validation) -> bool {
        &&& rules.leeway == 0
        &&& rules.iss == self.issuer
        &&& rules.sub == self.subject
        &&& match self.audience {
            Some(audience) => rules.aud matches Some(expected) && texts_in(expected@) == texts_of(
                audience@,
            ),
            None => rules.aud is None,
        }
    }

    /// Whether `rules` are the rules that these options call for: what
    /// they say of the claims, the accepted algorithms as given, and the
    /// two checks of time as the options say.
    pub open spec fn calls_for(&self, rules: Validation) -> bool {
        &&& self.expects(rules)
        &&& rules.validate_exp == self.checks_expiry()
        &&& rules.validate_nbf == self.checks_not_before()
        &&& rules.algorithms@ == self.algorithms@
    }

    /// Whether `rules` are the rules by which a token is checked that
    /// holds `exp` and `nbf` as said: what the options say of the claims;
    /// of the accepted algorithms those of the key's family; and a check
    /// of time only where the options ask for it and the token holds the
    /// claim.
    pub open spec fn narrows_to(&self, rules: Validation, holds_exp: bool, holds_nbf: bool) -> bool {
        &&& self.expects(rules)
        &&& rules.validate_exp == (self.checks_expiry() && holds_exp)
        &&& rules.validate_nbf == (self.checks_not_before() && holds_nbf)
        &&& all_of_family(rules.algorithms@, self.key_family())
        &&& forall|alg: Algorithm| #[trigger]
            rules.algorithms@.contains(alg) <==> self.algorithms@.contains(alg) && family_of(alg)
                == self.key_family()
    }

    /// What these options are sure to find in claims that they accept:
    /// under `iss` and `sub` the JSON strings for the issuer and the
    /// subject expected, and an `aud`. An `aud` that is a JSON string is
    /// the string for one of the audience expected, and one that is an
    /// array of strings holds one of them.
    pub open spec fn satisfied_by(&self, claims: Map<Seq<char>, Seq<char>>) -> bool {
        &&& self.audience matches Some(audience) ==> claims.contains_key("aud"@) && forall|
            text: Seq<char>,
        |
            claims["aud"@] == #[trigger] quoted(text) ==> texts_of(audience@).contains(text)
        &&& self.audience matches Some(audience) ==> (listed(claims["aud"@]) matches Some(held)
            ==> exists|text: Seq<char>| #[trigger]
            held.contains(text) && texts_of(audience@).contains(text))
        &&& self.issuer matches Some(issuer) ==> claims.contains_key("iss"@) && is_string_for(
            claims["iss"@],
            issuer@,
        )
        &&& self.subject matches Some(subject) ==> claims.contains_key("sub"@) && is_string_for(
            claims["sub"@],
            subject@,
        )
    }

    /// Whether some claim is expected to name an audience, an issuer or a
    /// subject.
    pub open spec fn expects_a_claim(&self) -> bool {
        self.audience is Some || self.issuer is Some || self.subject is Some
    }

    /// The texts of the audience expected, where one is expected.
    pub open spec fn audience_expected(&self) -> Option<Set<Seq<char>>> {
        match self.audience {
            Some(audience) => Some(texts_of(audience@)),
            None => None,
        }
    }

    /// Whether no check of time is made of the claims: there is no `exp`
    /// where expiry is checked, and no `nbf` where that is checked.
    pub open spec fn checks_no_time_of(&self, claims: Map<Seq<char>, Seq<char>>) -> bool {
        &&& self.checks_expiry() ==> !claims.contains_key("exp"@)
        &&& self.checks_not_before() ==> !claims.contains_key("nbf"@)
    }

    /// How the claims fare with the issuer, the subject and the audience
    /// expected: `Some(None)` where they pass, `Some` of the check that is
    /// the first to refuse them, and `None` where nothing is said: where
    /// `iss` or `sub` is no JSON string, or `aud` neither a JSON string
    /// nor an array of strings.
    pub open spec fn verdict_on(&self, claims: Map<Seq<char>, Seq<char>>) -> Option<Option<Rejection>> {
        claims_verdict(claims, text_of(self.issuer), text_of(self.subject), self.audience_expected())
    }

    /// Whether the claims pass every check that the options ask for,
    /// whatever the clock shows.
    pub open spec fn surely_passed_by(&self, claims: Map<Seq<char>, Seq<char>>) -> bool {
        self.checks_no_time_of(claims) && self.verdict_on(claims) == Some(None::<Rejection>)
    }

    /// The rules that these options call for.
    pub fn to_validation(&self) -> (rules: Validation)
        ensures
            self.calls_for(rules),
    {
        let mut algorithms: Vec<Algorithm> = Vec::new();
        let mut i: usize = 0;
        while i < self.algorithms.len()
            invariant
                i <= self.algorithms@.len(),
                algorithms@ == self.algorithms@.take(i as int),
            decreases self.algorithms@.len() - i,
        {
            algorithms.push(self.algorithms[i]);
            assert(algorithms@ =~= self.algorithms@.take(i + 1));
            i = i + 1;
        }
        assert(algorithms@ =~= self.algorithms@);
        let rules = Validation {
            leeway: 0,
            validate_exp: match self.ignore_expiration {
                Some(ignore) => !ignore,
                None => true,
            },
            validate_nbf: match self.ignore_not_before {
                Some(check) => check,
                None => false,
            },
            aud: None,
            iss: self.issuer.clone(),
            sub: self.subject.clone(),
            algorithms,
        };
        match &self.audience {
            Some(audience) => with_audience(rules, audience),
            None => rules,
        }
    }

    /// The rules by which a token is checked that holds `exp` and `nbf`
    /// as said. A token without `exp` never expires and a token without
    /// `nbf` is good at once, so time is checked only where the token
    /// holds the claim; and only the accepted algorithms of the key's
    /// family can be judged with the key.
    pub fn rules_for(&self, holds_exp: bool, holds_nbf: bool) -> (rules: Validation)
        ensures
            self.narrows_to(rules, holds_exp, holds_nbf),
    {
        let base = self.to_validation();
        let mut kept: Vec<Algorithm> = Vec::new();
        let mut i: usize = 0;
        while i < self.algorithms.len()
            invariant
                i <= self.algorithms@.len(),
                forall|k: int|
                    0 <= k < kept@.len() ==> family_of(#[trigger] kept@[k]) == self.key_family()
                        && self.algorithms@.contains(kept@[k]),
                forall|j: int|
                    0 <= j < i && family_of(#[trigger] self.algorithms@[j]) == self.key_family()
                        ==> kept@.contains(self.algorithms@[j]),
            decreases self.algorithms@.len() - i,
        {
            let ghost before = kept@;
            if family(self.algorithms[i]) == family(self.algorithms[0]) {
                kept.push(self.algorithms[i]);
                assert(kept@[kept@.len() - 1] == self.algorithms@[i as int]);
            }
            proof {
                assert forall|j: int|
                    0 <= j < i + 1 && family_of(#[trigger] self.algorithms@[j])
                        == self.key_family() implies kept@.contains(self.algorithms@[j]) by {
                    if j < i {
                        let at = choose|at: int|
                            0 <= at < before.len() && before[at] == self.algorithms@[j];
                        assert(kept@[at] == self.algorithms@[j]);
                    }
                }
            }
            i = i + 1;
        }
        Validation {
            leeway: base.leeway,
            validate_exp: base.validate_exp && holds_exp,
            validate_nbf: base.validate_nbf && holds_nbf,
            aud: base.aud,
            iss: base.iss,
            sub: base.sub,
            algorithms: kept,
        }
    }

    /// The key to check signatures with: the one that the first accepted
    /// algorithm calls for, whatever algorithm the token names; a secret
    /// where no algorithm is accepted. Fails with `InvalidKeyMaterial`
    /// exactly where the bytes are no key of that kind.
    pub fn get_key<'a>(&self, key: &'a [u8]) -> (r: Result<DecodingKey<'a>, TokenError>)
        ensures
            r is Ok <==> self.key_accepted(key@),
            r matches Ok(made) ==> verifying_family(made) == self.key_family() && verifying_content(made)
                == self.key_content(key@),
            r matches Err(e) ==> e == TokenError::InvalidKeyMaterial,
    {
        if self.algorithms.len() > 0 {
            self.algorithms[0].get_decoding_key(key)
        } else {
            Ok(secret_decoding_key(key))
        }
    }
}

/// Whether `alg` is one of `accepted`.
pub fn is_accepted(accepted: &Vec<Algorithm>, alg: Algorithm) -> (found: bool)
    ensures
        found == accepted@.contains(alg),
{
    let mut i: usize = 0;
    while i < accepted.len()
        invariant
            i <= accepted@.len(),
            forall|j: int| 0 <= j < i ==> accepted@[j] != alg,
        decreases accepted@.len() - i,
    {
        if accepted[i] == alg {
            return true;
        }
        i = i + 1;
    }
    false
}

/// What is handed to the caller for each outcome of the check of
/// signature and claims: a token that passed, in the form asked for with
/// the signature segment `signature`; for a check that refused the token,
/// the error that stands for that check; for any other failure, the error
/// that stands for its kind.
pub fn outcome(
    checked: Result<(Header, Vec<(String, String)>), (Option<Rejection>, FailureKind)>,
    complete: Option<bool>,
    signature: &str,
) -> (r: Result<Decoded, TokenError>)
    ensures
        match checked {
            Ok(parts) => r matches Ok(shown) && shown.shows(
                wants_all(complete),
                header_view(parts.0),
                entries_map(parts.1@),
                signature@,
            ),
            Err(failure) => r matches Err(e) && e == match failure.0 {
                Some(rejection) => TokenError::of_rejection(rejection),
                None => TokenError::of_failure(failure.1),
            },
        },
{
    match checked {
        Ok(parts) => Ok(Decoded::shape(complete, parts.0, ClaimSet::from_entries(parts.1), signature)),
        Err(failure) => match failure.0 {
            Some(rejection) => Err(TokenError::from_rejection(rejection)),
            None => Err(TokenError::from_failure(failure.1)),
        },
    }
}

/// What holds of the outcome `r` of checking `token`.
///
/// The checks come in this order, and the first that fails decides:
/// a text without exactly two `.` is a `MalformedToken`; key bytes that
/// the first accepted algorithm does not take are `InvalidKeyMaterial`; a
/// header segment that cannot be read is an `UnsupportedAlgorithm` where
/// it is JSON that names no known algorithm, and a `MalformedToken` else;
/// a header whose algorithm is not accepted, or is accepted but of
/// another family than the key, is an `UnsupportedAlgorithm`.
///
/// Past these the signature is judged, under the algorithm of the header
/// and the key of the first accepted algorithm, before any claim is
/// checked; only whether the token holds `exp` and `nbf` is looked up
/// before, and nothing is refused for it. A token is accepted only with
/// a signature that is taken;
/// one whose signature is not taken is refused, under an HMAC secret as
/// `SignatureInvalid`, and there the one signature that is taken is the
/// code of the first two segments. A token without `exp` never expires,
/// and a token without `nbf` is good at once. With a signature that is
/// taken and claims that can be read, where no check of time is made,
/// issuer, subject and audience decide in this order: claims that pass
/// are accepted, and claims that fail are a `ClaimMismatch`. Where a
/// check of time is made, the clock decides with them.
///
/// A token that is accepted is handed out in the form asked for, with the
/// header and claims that reading it without checks gives, and its claims
/// hold what the options expect. A token is refused as expired or as not
/// yet valid only where the options ask for that check and the token
/// holds the claim, and for a claim only where the options expect one.
pub open spec fn verified(r: Result<Decoded, TokenError>, token: Seq<char>, key: Seq<u8>, options: VerifyOptions) -> bool {
    &&& if dots(token) != 2 {
        r matches Err(e) && e == TokenError::MalformedToken
    } else if !options.key_accepted(key) {
        r matches Err(e) && e == TokenError::InvalidKeyMaterial
    } else {
        match parsed_header(header_segment(token)) {
            None => r matches Err(e) && e == TokenError::of_header_failure(
                header_fault(header_segment(token)),
            ),
            Some(header) => if !options.algorithms@.contains(header.alg) || family_of(header.alg)
                != options.key_family() {
                r matches Err(e) && e == TokenError::UnsupportedAlgorithm
            } else {
                let taken = signature_taken(
                    header.alg,
                    options.key_content(key),
                    message_of(token),
                    signature_segment(token),
                );
                &&& options.uses_secret() ==> taken == (signature_segment(token) == hmac_signature(
                    header.alg,
                    key,
                    message_of(token),
                ))
                &&& r matches Ok(shown) ==> {
                    &&& taken
                    &&& parsed_claims(claims_segment(token)) matches Some(claims) && shown.shows(
                        wants_all(options.complete),
                        header,
                        claims,
                        signature_segment(token),
                    )
                    &&& options.satisfied_by(shown.claims())
                }
                &&& !taken ==> r is Err
                &&& !taken && options.uses_secret() ==> (r matches Err(e) && e
                    == TokenError::SignatureInvalid)
                &&& taken ==> (parsed_claims(claims_segment(token)) matches Some(claims) ==> (
                options.checks_no_time_of(claims) ==> match options.verdict_on(claims) {
                    Some(Some(rejection)) => r matches Err(e) && e == TokenError::of_rejection(rejection),
                    Some(None) => r is Ok,
                    None => true,
                }))
            },
        }
    }
    &&& r matches Err(e) ==> {
        &&& e == TokenError::TokenExpired ==> options.checks_expiry() && (parsed_claims(
            claims_segment(token),
        ) matches Some(claims) && claims.contains_key("exp"@))
        &&& e == TokenError::TokenNotYetValid ==> options.checks_not_before() && (parsed_claims(
            claims_segment(token),
        ) matches Some(claims) && claims.contains_key("nbf"@))
        &&& e == TokenError::ClaimMismatch ==> options.expects_a_claim()
    }
}

/// Checks a token: its shape, its algorithm, its signature under `key`,
/// and its claims against the options and the clock. Expiry is checked
/// only of a token that holds `exp`, and the time before which a token is
/// not good only of one that holds `nbf`.
pub fn verify(token: &str, key: &[u8], options: &VerifyOptions) -> (r: Result<Decoded, TokenError>)
    ensures
        verified(r, token@, key@, *options),
{
    let signature = match split(token) {
        Ok(segments) => segments.2,
        Err(e) => {
            return Err(e);
        },
    };
    let decoding_key = match options.get_key(key) {
        Ok(decoding_key) => decoding_key,
        Err(e) => {
            return Err(e);
        },
    };
    let header = match read_header(token) {
        Ok(header) => header,
        Err(fault) => {
            return Err(TokenError::from_header_failure(fault));
        },
    };
    if !is_accepted(&options.algorithms, header.alg) {
        return Err(TokenError::UnsupportedAlgorithm);
    }
    if family(header.alg) != family(options.algorithms[0]) {
        return Err(TokenError::UnsupportedAlgorithm);
    }
    let (holds_exp, holds_nbf) = match read_unchecked(token) {
        Ok(parts) => {
            let claims = ClaimSet::from_entries(parts.1);
            (claims.contains("exp"), claims.contains("nbf"))
        },
        Err(_) => (false, false),
    };
    let rules = options.rules_for(holds_exp, holds_nbf);
    let checked = match read_checked(token, &decoding_key, &rules) {
        Ok(parts) => Ok(parts),
        Err(failure) => Err((failure.0, failure_kind(&failure.1))),
    };
    outcome(checked, options.complete, signature)
}

} // verus!
