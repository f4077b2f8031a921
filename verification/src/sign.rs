//! Issuing a token: the caller's claims, the reserved claims that the
//! options call for, the header in effect, the key that the algorithm
//! calls for, and the signed text.

use jsonwebtoken::{Algorithm, Header};
use vstd::prelude::*;

use crate::algorithm::{family_of, signing_key_accepted, Key, KeyFamily};
use crate::backend::{
    clock, encode_token, failure_kind, hmac_signature, parsed_claims, parsed_header, quoted,
    read_unchecked, reads_as_json, reads_back, rewrite, signing_input, since_epoch, whole_seconds,
};
use crate::claims::{
    all_json, all_plain, entries_map, lemma_holder, lemma_present, names_distinct, ClaimSet,
};
use crate::error::TokenError;
use crate::header::{header_view, text_of, HeaderView};
use crate::number::decimal_text;
use crate::token::{
    after_dot, claims_segment, dots, header_segment, is_segment, lemma_message, message_of,
    signature_segment,
};

verus! {

/// What a caller may ask for when a token is issued. Every field may be
/// left out.
#[derive(Debug)]
pub struct SignOptions {
    /// The algorithm to sign with; `HS256` where none is given.
    pub algorithm: Option<Algorithm>,
    /// For how many seconds from now the token is good: sets `exp`.
    pub expires_in: Option<u64>,
    /// In how many seconds from now the token becomes good: sets `nbf`.
    pub not_before: Option<u64>,
    /// Whom the token is meant for: sets `aud`.
    pub audience: Option<String>,
    /// Who issues the token: sets `iss`.
    pub issuer: Option<String>,
    /// The token's own name: sets `jti`.
    pub jwtid: Option<String>,
    /// Whom the token speaks of: sets `sub`.
    pub subject: Option<String>,
    /// Whether the token goes without the time of issue, `iat`.
    pub no_timestamp: Option<bool>,
    /// The header to send in place of one that holds the algorithm alone.
    pub header: Option<Header>,
    /// The name of the key. It is kept for the caller and takes no part
    /// in signing.
    pub keyid: Option<String>,
}

impl Default for SignOptions {
    /// The options of a caller who asks for nothing: `HS256`, and every
    /// other field left out.
    fn default() -> (options: SignOptions)
        ensures
            options.algorithm == Some(Algorithm::HS256),
            options.expires_in is None,
            options.not_before is None,
            options.audience is None,
            options.issuer is None,
            options.jwtid is None,
            options.subject is None,
            options.no_timestamp is None,
            options.header is None,
            options.keyid is None,
    {
        SignOptions {
            algorithm: Some(Algorithm::HS256),
            expires_in: None,
            not_before: None,
            audience: None,
            issuer: None,
            jwtid: None,
            subject: None,
            no_timestamp: None,
            header: None,
            keyid: None,
        }
    }
}

/// The header that holds `alg` and nothing else.
pub open spec fn bare_header(alg: Algorithm) -> HeaderView {
    HeaderView { alg, cty: None, jku: None, kid: None, typ: None, x5t: None, x5u: None }
}

/// The moment `offset` seconds after `now`; the last moment that can be
/// written where that lies beyond it.
pub open spec fn moment_after(now: u64, offset: u64) -> u64 {
    if now + offset > u64::MAX {
        u64::MAX
    } else {
        (now + offset) as u64
    }
}

/// The claims with the text written under `key` as a JSON string, where
/// there is a text.
pub open spec fn with_text(claims: Map<Seq<char>, Seq<char>>, key: Seq<char>, text: Option<Seq<char>>) -> Map<
    Seq<char>,
    Seq<char>,
> {
    match text {
        Some(text) => claims.insert(key, quoted(text)),
        None => claims,
    }
}

/// The claims with the number written under `key` as a JSON number,
/// where there is a number.
pub open spec fn with_number(claims: Map<Seq<char>, Seq<char>>, key: Seq<char>, number: Option<u64>) -> Map<
    Seq<char>,
    Seq<char>,
> {
    match number {
        Some(number) => claims.insert(key, decimal_text(number as nat)),
        None => claims,
    }
}

/// The moment that lies the offset after `now`, where there is an offset.
pub open spec fn moment_for(now: u64, offset: Option<u64>) -> Option<u64> {
    match offset {
        Some(offset) => Some(moment_after(now, offset)),
        None => None,
    }
}

impl SignOptions {
    /// The algorithm to sign with.
    pub open spec fn algorithm_in_effect(&self) -> Algorithm {
        match self.algorithm {
            Some(alg) => alg,
            None => Algorithm::HS256,
        }
    }

    /// The header to send: the one given, or one that holds the algorithm
    /// alone.
    pub open spec fn header_in_effect(&self) -> HeaderView {
        match self.header {
            Some(header) => header_view(header),
            None => bare_header(self.algorithm_in_effect()),
        }
    }

    /// Whether a header that was given names the algorithm in effect.
    pub open spec fn header_agrees(&self) -> bool {
        self.header matches Some(header) ==> header.alg == self.algorithm_in_effect()
    }

    /// The claims with the time of issue settled: without `iat` where the
    /// token goes without it; else with the caller's own `iat` where there
    /// is one, and with `now` where there is none.
    pub open spec fn stamped(&self, claims: Map<Seq<char>, Seq<char>>, now: u64) -> Map<Seq<char>, Seq<char>> {
        if self.no_timestamp == Some(true) {
            claims.remove("iat"@)
        } else if claims.contains_key("iat"@) {
            claims
        } else {
            claims.insert("iat"@, decimal_text(now as nat))
        }
    }

    /// The claims with the reserved claims that the options call for: `exp`
    /// and `nbf` as moments counted from `now`, then `aud`, `iss`, `jti`
    /// and `sub`. Each replaces what the caller wrote under that name.
    pub open spec fn reserved(&self, claims: Map<Seq<char>, Seq<char>>, now: u64) -> Map<Seq<char>, Seq<char>> {
        let claims = with_number(claims, "exp"@, moment_for(now, self.expires_in));
        let claims = with_number(claims, "nbf"@, moment_for(now, self.not_before));
        let claims = with_text(claims, "aud"@, text_of(self.audience));
        let claims = with_text(claims, "iss"@, text_of(self.issuer));
        let claims = with_text(claims, "jti"@, text_of(self.jwtid));
        with_text(claims, "sub"@, text_of(self.subject))
    }

    /// The claims that a token issued at `now` for `payload` holds.
    pub open spec fn claims_in_effect(&self, payload: Map<Seq<char>, Seq<char>>, now: u64) -> Map<
        Seq<char>,
        Seq<char>,
    > {
        self.reserved(self.stamped(payload, now), now)
    }

    /// Writes the text under `key`, where there is a text.
    pub fn insert_claim(&self, claims: &mut ClaimSet, key: &str, value: &Option<String>)
        ensures
            final(claims)@ == with_text(old(claims)@, key@, text_of(*value)),
    {
        match value {
            Some(text) => claims.set_text(key, text.as_str()),
            None => {},
        }
    }

    /// Writes the number under `key`, where there is a number.
    pub fn insert_claim_u64(&self, claims: &mut ClaimSet, key: &str, value: Option<u64>)
        ensures
            final(claims)@ == with_number(old(claims)@, key@, value),
    {
        match value {
            Some(number) => claims.set_number(key, number),
            None => {},
        }
    }

    /// Settles the time of issue.
    pub fn stamp(&self, claims: &mut ClaimSet, now: u64)
        ensures
            final(claims)@ == self.stamped(old(claims)@, now),
    {
        let suppressed = match self.no_timestamp {
            Some(flag) => flag,
            None => false,
        };
        if suppressed {
            claims.remove("iat");
        } else if !claims.contains("iat") {
            claims.set_number("iat", now);
        }
    }

    /// Writes the reserved claims that the options call for.
    pub fn parse_options(&self, claims: &mut ClaimSet, now: u64)
        ensures
            final(claims)@ == self.reserved(old(claims)@, now),
    {
        self.insert_claim_u64(claims, "exp", Self::moment(now, self.expires_in));
        self.insert_claim_u64(claims, "nbf", Self::moment(now, self.not_before));
        self.insert_claim(claims, "aud", &self.audience);
        self.insert_claim(claims, "iss", &self.issuer);
        self.insert_claim(claims, "jti", &self.jwtid);
        self.insert_claim(claims, "sub", &self.subject);
    }

    /// The moment that lies the offset after `now`, where there is an
    /// offset.
    fn moment(now: u64, offset: Option<u64>) -> (moment: Option<u64>)
        ensures
            moment == moment_for(now, offset),
    {
        match offset {
            Some(offset) => Some(now.saturating_add(offset)),
            None => None,
        }
    }
}

/// Whether the claims, once written into a token under the header, can
/// be read out of it again. They can where every value is a number or a
/// string as this crate writes them; a value that is nested too deep for
/// the reader cannot.
pub open spec fn readable(header: HeaderView, claims: Map<Seq<char>, Seq<char>>) -> bool {
    parsed_claims(after_dot(signing_input(header, claims))) is Some
}

/// What holds of the outcome `r` of issuing a token at `now`.
///
/// The checks come in this order, and the first that fails decides: a
/// header that names another algorithm than the one in effect is an
/// `UnsupportedAlgorithm`; key bytes that the algorithm does not take are
/// `InvalidKeyMaterial`; a claim whose value is not the text of a JSON
/// value makes `InvalidClaims`. Past these an HMAC algorithm issues a
/// token exactly where the claims can be read out of it again, which they
/// can where they are numbers and strings as this crate writes them;
/// claims that cannot are `InvalidClaims`. Under another algorithm the
/// signing call decides.
///
/// A token that comes back has three segments, none empty and each of
/// base64url characters; its first two are the text that stands for the
/// header and the claims in effect; under an HMAC algorithm its third is
/// the code of the first two under the key. Its header segment reads back
/// as the header in effect, and its claims segment reads back as the
/// claims in effect: the same names, each value as `serde_json` writes
/// it, and as it was given where it is a number or a string as this crate
/// writes them.
pub open spec fn issued(
    r: Result<String, TokenError>,
    payload: Map<Seq<char>, Seq<char>>,
    key: Seq<u8>,
    options: SignOptions,
    now: u64,
) -> bool {
    let alg = options.algorithm_in_effect();
    let header = options.header_in_effect();
    let claims = options.claims_in_effect(payload, now);
    &&& if !options.header_agrees() {
        r matches Err(e) && e == TokenError::UnsupportedAlgorithm
    } else if !signing_key_accepted(alg, key) {
        r matches Err(e) && e == TokenError::InvalidKeyMaterial
    } else if !all_json(claims) {
        r matches Err(e) && e == TokenError::InvalidClaims
    } else {
        family_of(alg) == KeyFamily::Hmac ==> {
            &&& all_plain(claims) ==> readable(header, claims)
            &&& if readable(header, claims) {
                r is Ok
            } else {
                r matches Err(e) && e == TokenError::InvalidClaims
            }
        }
    }
    &&& r matches Ok(token) ==> {
        &&& dots(token@) == 2
        &&& is_segment(header_segment(token@))
        &&& is_segment(claims_segment(token@))
        &&& is_segment(signature_segment(token@))
        &&& message_of(token@) == signing_input(header, claims)
        &&& family_of(alg) == KeyFamily::Hmac ==> signature_segment(token@) == hmac_signature(
            alg,
            key,
            message_of(token@),
        )
        &&& parsed_header(header_segment(token@)) == Some(header)
        &&& parsed_claims(claims_segment(token@)) matches Some(read) && reads_back(claims, read)
    }
    &&& r matches Err(e) ==> e == TokenError::UnsupportedAlgorithm || e == TokenError::InvalidKeyMaterial
        || e == TokenError::InvalidClaims
}

/// Whether every value in the list is the text of a JSON value.
fn entries_are_json(entries: &Vec<(String, String)>) -> (ok: bool)
    requires
        names_distinct(entries@),
    ensures
        ok == all_json(entries_map(entries@)),
        ok ==> forall|i: int| 0 <= i < entries@.len() ==> reads_as_json(#[trigger] entries@[i].1@),
{
    let mut i: usize = 0;
    while i < entries.len()
        invariant
            i <= entries@.len(),
            names_distinct(entries@),
            forall|j: int| 0 <= j < i ==> reads_as_json(#[trigger] entries@[j].1@),
        decreases entries@.len() - i,
    {
        if rewrite(entries[i].1.as_str()).is_none() {
            proof {
                lemma_present(entries@, i as int);
            }
            return false;
        }
        i = i + 1;
    }
    proof {
        let claims = entries_map(entries@);
        assert forall|name: Seq<char>| claims.contains_key(name) implies reads_as_json(
            #[trigger] claims[name],
        ) by {
            lemma_holder(entries@, name);
            let at = choose|at: int| 0 <= at < entries@.len() && #[trigger] entries@[at].0@ == name;
            lemma_present(entries@, at);
        }
    }
    true
}

/// Issues a token for `payload` as of the moment `now`, in seconds since
/// the start of 1970. The token is read once before it is handed out, so
/// that no token is issued that cannot be read.
pub fn sign_at(payload: ClaimSet, key: &[u8], options: &SignOptions, now: u64) -> (r: Result<
    String,
    TokenError,
>)
    ensures
        issued(r, payload@, key@, *options, now),
{
    let mut claims = payload;
    options.stamp(&mut claims, now);
    options.parse_options(&mut claims, now);
    let alg = match options.algorithm {
        Some(alg) => alg,
        None => Algorithm::HS256,
    };
    let bare = Header { typ: None, alg, cty: None, jku: None, kid: None, x5u: None, x5t: None };
    let header = match &options.header {
        Some(header) => {
            if !(header.alg == alg) {
                return Err(TokenError::UnsupportedAlgorithm);
            }
            header
        },
        None => &bare,
    };
    let encoding_key = match alg.get_encoding_key(key) {
        Ok(encoding_key) => encoding_key,
        Err(e) => {
            return Err(e);
        },
    };
    let entries = claims.entries();
    if !entries_are_json(entries) {
        return Err(TokenError::InvalidClaims);
    }
    let token = match encode_token(header, entries, &encoding_key) {
        Ok(token) => token,
        Err(error) => {
            return Err(TokenError::from_signing_failure(failure_kind(&error)));
        },
    };
    proof {
        lemma_message(token@);
    }
    match read_unchecked(token.as_str()) {
        Ok(_) => Ok(token),
        Err(_) => Err(TokenError::InvalidClaims),
    }
}

/// Issues a token for `payload` as of now.
///
/// The outcome is that of [`sign_at`] at the moment the clock shows, or
/// at the start of 1970 where the clock stands before that.
pub fn sign(payload: ClaimSet, key: &[u8], options: &SignOptions) -> (r: Result<String, TokenError>)
    ensures
        exists|now: u64| issued(r, payload@, key@, *options, now),
{
    let moment = clock();
    let now = match since_epoch(&moment) {
        Ok(span) => whole_seconds(&span),
        Err(_) => 0,
    };
    let r = sign_at(payload, key, options, now);
    assert(issued(r, payload@, key@, *options, now));
    r
}

} // verus!
