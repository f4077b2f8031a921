//! What this crate takes on trust from `jsonwebtoken`, `serde_json` and
//! `std`: the types it lets through, the calls it makes, and the names it
//! gives to what those calls compute. Nothing here is proved; everything
//! else in the crate is proved from it.

use jsonwebtoken::errors::{Error, ErrorKind};
use jsonwebtoken::{Algorithm, DecodingKey, EncodingKey, Header, Validation};
use serde_json::Value;
use std::time::{Duration, SystemTime, SystemTimeError};
use vstd::prelude::*;

use crate::algorithm::{family_of, KeyFamily};
use crate::claims::{all_plain, entries_map, is_plain, names_distinct};
use crate::error::{FailureKind, JsonFault, Rejection};
use crate::header::{header_view, text_of, HeaderView};
use crate::token::{
    claims_segment, dots, header_segment, is_segment, message_of, signature_segment,
};

verus! {

/// `jsonwebtoken::Algorithm`, with its variants in view.
#[verifier::external_type_specification]
pub struct ExAlgorithm(Algorithm);

/// `jsonwebtoken::Header`, with its fields in view.
#[verifier::external_type_specification]
pub struct ExHeader(Header);

/// `jsonwebtoken::Validation`, with its fields in view.
#[verifier::external_type_specification]
pub struct ExValidation(Validation);

/// `jsonwebtoken::EncodingKey`: a key to sign with. Of what it holds only
/// [`signing_secret`] is in view.
#[verifier::external_type_specification]
#[verifier::external_body]
pub struct ExEncodingKey(EncodingKey);

/// `jsonwebtoken::DecodingKey`: a key to check signatures with. Of what it
/// holds [`verifying_family`] and [`verifying_content`] are in view.
#[verifier::external_type_specification]
#[verifier::external_body]
pub struct ExDecodingKey<'a>(DecodingKey<'a>);

/// `jsonwebtoken::errors::Error`. Nothing of it is in view; its kind is
/// read by [`read_checked`] and [`failure_kind`].
#[verifier::external_type_specification]
#[verifier::external_body]
pub struct ExError(Error);

/// `std::time::SystemTime`: a reading of the clock. Nothing of it is in
/// view.
#[verifier::external_type_specification]
#[verifier::external_body]
pub struct ExSystemTime(SystemTime);

/// `std::time::SystemTimeError`: the failure of counting from a later
/// moment. Nothing of it is in view.
#[verifier::external_type_specification]
#[verifier::external_body]
pub struct ExSystemTimeError(SystemTimeError);

/// `==` on `jsonwebtoken::Algorithm` is the one its `derive(PartialEq)`
/// writes for an enum without fields: the same variant.
pub assume_specification[ <Algorithm as PartialEq>::eq ](a: &Algorithm, b: &Algorithm) -> (r: bool)
    ensures
        r == (*a == *b),
;

/// `==` on `str` compares the two texts.
pub assume_specification[ <str as PartialEq>::eq ](a: &str, b: &str) -> (r: bool)
    ensures
        r == (a@ == b@),
;

/// Whether `EncodingKey::from_rsa_pem` accepts these bytes.
pub uninterp spec fn rsa_signing_pem(key: Seq<u8>) -> bool;

/// Whether `EncodingKey::from_ec_pem` accepts these bytes.
pub uninterp spec fn ec_signing_pem(key: Seq<u8>) -> bool;

/// The bytes of the RSA key that `DecodingKey::from_rsa_pem` takes out of
/// a PEM file; `None` where it accepts none.
pub uninterp spec fn rsa_verifying_key(pem: Seq<u8>) -> Option<Seq<u8>>;

/// The bytes of the elliptic-curve key that `DecodingKey::from_ec_pem`
/// takes out of a PEM file; `None` where it accepts none.
pub uninterp spec fn ec_verifying_key(pem: Seq<u8>) -> Option<Seq<u8>>;

/// The bytes that an `EncodingKey` holds as its HMAC secret; `None` for a
/// key of another family.
pub uninterp spec fn signing_secret(key: EncodingKey) -> Option<Seq<u8>>;

/// The family of algorithms that a `DecodingKey` was made for.
pub uninterp spec fn verifying_family(key: DecodingKey) -> KeyFamily;

/// The bytes that a `DecodingKey` holds: the secret of an HMAC key, and
/// for the other families the bytes of the key taken out of the PEM file.
pub uninterp spec fn verifying_content(key: DecodingKey) -> Seq<u8>;

/// Whether `jsonwebtoken::crypto::verify`, by which `jsonwebtoken::decode`
/// judges a signature, takes `signature` for `message` under `alg` and a
/// key of the family of `alg` that holds `content`.
pub uninterp spec fn signature_taken(
    alg: Algorithm,
    content: Seq<u8>,
    message: Seq<char>,
    signature: Seq<char>,
) -> bool;

/// The text that `serde_json` writes for the value that it reads from a
/// JSON text.
pub uninterp spec fn rewritten(json: Seq<char>) -> Seq<char>;

/// The texts of the strings in the JSON array that `serde_json` reads from
/// a JSON text; `None` where the text is no array of strings. This is how
/// `jsonwebtoken::decode` reads an `aud` that is an array.
pub uninterp spec fn listed(json: Seq<char>) -> Option<Set<Seq<char>>>;

/// The JSON string that `serde_json` writes for a text: the text between
/// double quotes, with the characters escaped that JSON wants escaped.
pub uninterp spec fn quoted(text: Seq<char>) -> Seq<char>;

/// Whether `serde_json::from_str` reads the text as a JSON value.
pub uninterp spec fn reads_as_json(text: Seq<char>) -> bool;

/// The header that `jsonwebtoken::decode_header` reads from a header
/// segment; `None` where it reads none.
pub uninterp spec fn parsed_header(segment: Seq<char>) -> Option<HeaderView>;

/// How `serde_json` sorts the failure of `jsonwebtoken::decode_header` on
/// a header segment that it does not read; `None` where the failure is not
/// one of JSON.
pub uninterp spec fn header_fault(segment: Seq<char>) -> Option<JsonFault>;

/// The claims that `jsonwebtoken::dangerous_insecure_decode` reads from a
/// claims segment, each value as the JSON text that `serde_json` writes for
/// it; `None` where it reads none.
pub uninterp spec fn parsed_claims(segment: Seq<char>) -> Option<Map<Seq<char>, Seq<char>>>;

/// How `serde_json` sorts the failure of
/// `jsonwebtoken::dangerous_insecure_decode` on a claims segment that it
/// does not read; `None` where the failure is not one of JSON.
pub uninterp spec fn claims_fault(segment: Seq<char>) -> Option<JsonFault>;

/// The text that `jsonwebtoken::encode` signs: the header segment, a `.`,
/// and the claims segment.
pub uninterp spec fn signing_input(header: HeaderView, claims: Map<Seq<char>, Seq<char>>) -> Seq<char>;

/// The signature segment that `jsonwebtoken::encode` writes under an HMAC
/// algorithm, which is the only one that `jsonwebtoken::decode` takes under
/// it: the code of the message under the secret, in base64url.
pub uninterp spec fn hmac_signature(alg: Algorithm, secret: Seq<u8>, message: Seq<char>) -> Seq<char>;

/// Whether the claims `read` are the claims `written`, read back: the
/// names are the same, and each value is the text that `serde_json` writes
/// for what it reads, once on the way into the token and once on the way
/// out. A number or a string as this crate writes them is written as it
/// stands, so it is read as it was written.
pub open spec fn reads_back(written: Map<Seq<char>, Seq<char>>, read: Map<Seq<char>, Seq<char>>) -> bool {
    &&& read.dom() == written.dom()
    &&& forall|name: Seq<char>| #[trigger]
        written.contains_key(name) ==> read[name] == rewritten(rewritten(written[name]))
    &&& forall|name: Seq<char>| #[trigger]
        written.contains_key(name) && is_plain(written[name]) ==> read[name] == written[name]
}

/// Whether the rules ask for the check that gives `rejection`. The
/// signature is always checked.
pub open spec fn asks_for(rules: Validation, rejection: Rejection) -> bool {
    match rejection {
        Rejection::Signature => true,
        Rejection::Expired => rules.validate_exp,
        Rejection::Immature => rules.validate_nbf,
        Rejection::Issuer => rules.iss is Some,
        Rejection::Subject => rules.sub is Some,
        Rejection::Audience => rules.aud is Some,
    }
}

/// The texts of the strings in a set.
pub open spec fn texts_in(strings: Set<String>) -> Set<Seq<char>> {
    strings.map(|one: String| one@)
}

/// The texts of the strings in a list.
pub open spec fn texts_of(strings: Seq<String>) -> Set<Seq<char>> {
    strings.map_values(|one: String| one@).to_set()
}

/// The texts of the strings in the audience that the rules expect, where
/// they expect one.
pub open spec fn audience_of(rules: Validation) -> Option<Set<Seq<char>>> {
    match rules.aud {
        Some(expected) => Some(texts_in(expected@)),
        None => None,
    }
}

/// Whether `json` is a JSON string.
pub open spec fn is_string(json: Seq<char>) -> bool {
    exists|text: Seq<char>| json == #[trigger] quoted(text)
}

/// How a claim fares that is expected to be the JSON string for a text:
/// it passes where nothing is expected or it is that string; it fails
/// where it is missing or the string for another text; and where it is no
/// string, nothing is said.
pub open spec fn text_verdict(claims: Map<Seq<char>, Seq<char>>, name: Seq<char>, expected: Option<Seq<char>>) -> Option<
    bool,
> {
    match expected {
        None => Some(true),
        Some(text) => if !claims.contains_key(name) {
            Some(false)
        } else if claims[name] == quoted(text) {
            Some(true)
        } else if is_string(claims[name]) {
            Some(false)
        } else {
            None
        },
    }
}

/// How `aud` fares where an audience is expected: it passes where it is
/// the JSON string for one of the texts expected, or an array of strings
/// that holds one of them; it fails where it is missing, another string,
/// or an array of strings that holds none of them; and of any other value
/// nothing is said.
pub open spec fn audience_verdict(claims: Map<Seq<char>, Seq<char>>, expected: Option<Set<Seq<char>>>) -> Option<
    bool,
> {
    match expected {
        None => Some(true),
        Some(expected) => if !claims.contains_key("aud"@) {
            Some(false)
        } else if exists|text: Seq<char>|
            claims["aud"@] == #[trigger] quoted(text) && expected.contains(text) {
            Some(true)
        } else if is_string(claims["aud"@]) {
            Some(false)
        } else {
            match listed(claims["aud"@]) {
                Some(held) => Some(exists|text: Seq<char>| #[trigger]
                    held.contains(text) && expected.contains(text)),
                None => None,
            }
        },
    }
}

/// How the claims fare with what is expected of issuer, subject and
/// audience, which are looked at in this order: `Some(None)` where they
/// pass, `Some` of the check that is the first to refuse them, and `None`
/// where nothing is said.
pub open spec fn claims_verdict(
    claims: Map<Seq<char>, Seq<char>>,
    issuer: Option<Seq<char>>,
    subject: Option<Seq<char>>,
    audience: Option<Set<Seq<char>>>,
) -> Option<Option<Rejection>> {
    match text_verdict(claims, "iss"@, issuer) {
        None => None,
        Some(false) => Some(Some(Rejection::Issuer)),
        Some(true) => match text_verdict(claims, "sub"@, subject) {
            None => None,
            Some(false) => Some(Some(Rejection::Subject)),
            Some(true) => match audience_verdict(claims, audience) {
                None => None,
                Some(false) => Some(Some(Rejection::Audience)),
                Some(true) => Some(None),
            },
        },
    }
}

/// Whether `json` is the JSON string for `text` and for no other text.
pub open spec fn is_string_for(json: Seq<char>, text: Seq<char>) -> bool {
    json == quoted(text) && forall|other: Seq<char>| json == #[trigger] quoted(other) ==> other == text
}

/// What the rules are sure to find in claims that they accept: `exp`,
/// `nbf` and `aud` where they are checked; under `iss` and `sub` the JSON
/// strings for the texts expected; and under `aud`, where that is a JSON
/// string, the string for one of the texts expected. Of an `aud` that is
/// an array the contract of [`read_checked`] speaks.
pub open spec fn meets(claims: Map<Seq<char>, Seq<char>>, rules: Validation) -> bool {
    &&& rules.validate_exp ==> claims.contains_key("exp"@)
    &&& rules.validate_nbf ==> claims.contains_key("nbf"@)
    &&& rules.aud matches Some(expected) ==> claims.contains_key("aud"@) && forall|text: Seq<char>|
        claims["aud"@] == #[trigger] quoted(text) ==> texts_in(expected@).contains(text)
    &&& rules.iss matches Some(issuer) ==> claims.contains_key("iss"@) && is_string_for(
        claims["iss"@],
        issuer@,
    )
    &&& rules.sub matches Some(subject) ==> claims.contains_key("sub"@) && is_string_for(
        claims["sub"@],
        subject@,
    )
}

/// Whether every algorithm of the list is of the family.
pub open spec fn all_of_family(algorithms: Seq<Algorithm>, family: KeyFamily) -> bool {
    forall|i: int| 0 <= i < algorithms.len() ==> family_of(#[trigger] algorithms[i]) == family
}

/// What `jsonwebtoken::decode` is sure to do with a token of three
/// segments whose header can be read, where every accepted algorithm is of
/// the key's family and the token's own is one of them. The signature is
/// judged first: a token whose signature is not taken is refused, and
/// under an HMAC key it is refused for its signature. Under an HMAC key
/// the one signature that is taken is the code of the message under the
/// secret. With a signature that is taken and claims that can be read,
/// where the rules ask for no check of time, [`claims_verdict`] decides:
/// claims that pass are accepted, and claims that fail are refused by the
/// check that is the first to fail.
pub open spec fn judged(
    r: Result<(Header, Vec<(String, String)>), (Option<Rejection>, Error)>,
    token: Seq<char>,
    key: DecodingKey,
    rules: Validation,
) -> bool {
    match parsed_header(header_segment(token)) {
        Some(header) => all_of_family(rules.algorithms@, verifying_family(key))
            && rules.algorithms@.contains(header.alg) ==> {
            let taken = signature_taken(
                header.alg,
                verifying_content(key),
                message_of(token),
                signature_segment(token),
            );
            &&& verifying_family(key) == KeyFamily::Hmac ==> taken == (signature_segment(token)
                == hmac_signature(header.alg, verifying_content(key), message_of(token)))
            &&& !taken ==> (r matches Err(failure) && (failure.0 == Some(Rejection::Signature)
                || (failure.0 is None && verifying_family(key) != KeyFamily::Hmac)))
            &&& taken && !rules.validate_exp && !rules.validate_nbf ==> (parsed_claims(
                claims_segment(token),
            ) matches Some(claims) ==> match claims_verdict(
                claims,
                text_of(rules.iss),
                text_of(rules.sub),
                audience_of(rules),
            ) {
                Some(Some(rejection)) => r matches Err(failure) && failure.0 == Some(rejection),
                Some(None) => r is Ok,
                None => true,
            })
        },
        None => true,
    }
}

/// `EncodingKey::from_secret`: any bytes make an HMAC secret.
#[verifier::external_body]
pub(crate) fn secret_encoding_key(secret: &[u8]) -> (key: EncodingKey)
    ensures
        signing_secret(key) == Some(secret@),
{
    EncodingKey::from_secret(secret)
}

/// `EncodingKey::from_rsa_pem`: reads a PEM file and takes the RSA key out
/// of it. Whether it succeeds depends on the bytes alone.
#[verifier::external_body]
pub(crate) fn rsa_encoding_key(key: &[u8]) -> (r: Result<EncodingKey, Error>)
    ensures
        r is Ok <==> rsa_signing_pem(key@),
        r matches Ok(made) ==> signing_secret(made) is None,
{
    EncodingKey::from_rsa_pem(key)
}

/// `EncodingKey::from_ec_pem`: reads a PEM file and takes the private
/// elliptic-curve key out of it. Whether it succeeds depends on the bytes
/// alone.
#[verifier::external_body]
pub(crate) fn ec_encoding_key(key: &[u8]) -> (r: Result<EncodingKey, Error>)
    ensures
        r is Ok <==> ec_signing_pem(key@),
        r matches Ok(made) ==> signing_secret(made) is None,
{
    EncodingKey::from_ec_pem(key)
}

/// `DecodingKey::from_secret`: any bytes make an HMAC secret.
#[verifier::external_body]
pub(crate) fn secret_decoding_key<'a>(secret: &'a [u8]) -> (key: DecodingKey<'a>)
    ensures
        verifying_family(key) == KeyFamily::Hmac,
        verifying_content(key) == secret@,
{
    DecodingKey::from_secret(secret)
}

/// `DecodingKey::from_rsa_pem`: reads a PEM file and takes the RSA key out
/// of it. What it takes out depends on the bytes alone.
#[verifier::external_body]
pub(crate) fn rsa_decoding_key<'a>(key: &'a [u8]) -> (r: Result<DecodingKey<'a>, Error>)
    ensures
        r is Ok <==> rsa_verifying_key(key@) is Some,
        r matches Ok(made) ==> verifying_family(made) == KeyFamily::Rsa && Some(verifying_content(made))
            == rsa_verifying_key(key@),
{
    DecodingKey::from_rsa_pem(key)
}

/// `DecodingKey::from_ec_pem`: reads a PEM file and takes the public
/// elliptic-curve key out of it. What it takes out depends on the bytes
/// alone.
#[verifier::external_body]
pub(crate) fn ec_decoding_key<'a>(key: &'a [u8]) -> (r: Result<DecodingKey<'a>, Error>)
    ensures
        r is Ok <==> ec_verifying_key(key@) is Some,
        r matches Ok(made) ==> verifying_family(made) == KeyFamily::Ec && Some(verifying_content(made))
            == ec_verifying_key(key@),
{
    DecodingKey::from_ec_pem(key)
}

/// `Display` of a `serde_json::Value` made of a text: the JSON string for
/// it.
#[verifier::external_body]
pub(crate) fn quote(text: &str) -> (json: String)
    ensures
        json@ == quoted(text@),
{
    Value::from(text).to_string()
}

/// `serde_json::from_str` and then `Display` of the value: the text that
/// `serde_json` writes for the value that it reads, and nothing where it
/// reads none. It reads every number and string as this crate writes them,
/// and writes them as they stand.
#[verifier::external_body]
pub(crate) fn rewrite(text: &str) -> (r: Option<String>)
    ensures
        r is Some <==> reads_as_json(text@),
        r matches Some(json) ==> json@ == rewritten(text@),
        is_plain(text@) ==> r is Some && r->Some_0@ == text@,
{
    serde_json::from_str::<Value>(text).ok().map(|value| value.to_string())
}

/// `jsonwebtoken::encode`: writes header and claims as JSON, each in
/// base64url, joins them with a `.`, signs that text with the key, and
/// adds a `.` and the signature in base64url.
///
/// Each claim is given as a name and the JSON text of its value, which
/// `serde_json::from_str` reads; a text that it does not read fails the
/// call. Of two entries with one name the later one counts, and the names
/// are written in their sorted order, whatever the order of the entries.
///
/// Under an HMAC algorithm and an HMAC secret the call succeeds whenever
/// every value is read, and the signature is the code of the message
/// under the secret. With other keys it is left open whether the call
/// succeeds, and the signature may be drawn at random. Of every token
/// that comes back: it has three segments, none empty and each of
/// base64url characters; what stands before the second `.` is a function
/// of header and claims alone; its header segment reads back as the
/// header given. Its claims segment need not read back, since values may
/// be nested deeper than the reader goes: it does where every value is a
/// number or a string as this crate writes them, and where it does, it
/// reads back as [`reads_back`] says.
#[verifier::external_body]
pub(crate) fn encode_token(header: &Header, claims: &Vec<(String, String)>, key: &EncodingKey) -> (r:
    Result<String, Error>)
    ensures
        r matches Ok(token) ==> {
            &&& dots(token@) == 2
            &&& is_segment(header_segment(token@))
            &&& is_segment(claims_segment(token@))
            &&& is_segment(signature_segment(token@))
            &&& message_of(token@) == signing_input(header_view(*header), entries_map(claims@))
            &&& parsed_header(header_segment(token@)) == Some(header_view(*header))
            &&& parsed_claims(claims_segment(token@)) matches Some(read) ==> reads_back(
                entries_map(claims@),
                read,
            )
            &&& all_plain(entries_map(claims@)) ==> parsed_claims(claims_segment(token@)) is Some
            &&& signing_secret(*key) matches Some(secret) ==> signature_segment(token@)
                == hmac_signature(header.alg, secret, message_of(token@))
        },
        signing_secret(*key) is Some && family_of(header.alg) == KeyFamily::Hmac && (forall|i: int|
            0 <= i < claims@.len() ==> reads_as_json(#[trigger] claims@[i].1@)) ==> r is Ok,
{
    let mut object = serde_json::Map::new();
    for (name, json) in claims.iter() {
        object.insert(name.clone(), serde_json::from_str::<Value>(json)?);
    }
    jsonwebtoken::encode(header, &object, key)
}

/// `jsonwebtoken::decode_header`: reads the header of a token and checks
/// nothing else. A failure comes back as `serde_json` sorts it, where it is
/// one of JSON. On a token with two `.` the outcome depends on the header
/// segment alone.
#[verifier::external_body]
pub(crate) fn read_header(token: &str) -> (r: Result<Header, Option<JsonFault>>)
    ensures
        dots(token@) == 2 ==> match r {
            Ok(header) => parsed_header(header_segment(token@)) == Some(header_view(header)),
            Err(fault) => parsed_header(header_segment(token@)) is None && fault == header_fault(
                header_segment(token@),
            ),
        },
{
    match jsonwebtoken::decode_header(token) {
        Ok(header) => Ok(header),
        Err(error) => Err(match error.kind() {
            ErrorKind::Json(e) => Some(match e.classify() {
                serde_json::error::Category::Io => JsonFault::Io,
                serde_json::error::Category::Syntax => JsonFault::Syntax,
                serde_json::error::Category::Data => JsonFault::Data,
                serde_json::error::Category::Eof => JsonFault::Eof,
            }),
            _ => None,
        }),
    }
}

/// `jsonwebtoken::dangerous_insecure_decode`: reads header and claims of a
/// token and checks neither the signature nor any claim. A failure comes
/// back as `serde_json` sorts it, where it is one of JSON. On a token with
/// two `.` the outcome depends on the header and claims segments alone,
/// and the header is read first; the claims come back one entry for each
/// name, each value as its JSON text.
#[verifier::external_body]
pub(crate) fn read_unchecked(token: &str) -> (r: Result<(Header, Vec<(String, String)>), Option<JsonFault>>)
    ensures
        r matches Ok(parts) ==> names_distinct(parts.1@),
        dots(token@) == 2 ==> match r {
            Ok(parts) => {
                &&& parsed_header(header_segment(token@)) == Some(header_view(parts.0))
                &&& parsed_claims(claims_segment(token@)) == Some(entries_map(parts.1@))
            },
            Err(fault) => if parsed_header(header_segment(token@)) is None {
                fault == header_fault(header_segment(token@))
            } else {
                parsed_claims(claims_segment(token@)) is None && fault == claims_fault(
                    claims_segment(token@),
                )
            },
        },
{
    match jsonwebtoken::dangerous_insecure_decode::<serde_json::Map<String, Value>>(token) {
        Ok(data) => Ok((data.header, data.claims.iter().map(|(n, v)| (n.clone(), v.to_string())).collect())),
        Err(error) => Err(match error.kind() {
            ErrorKind::Json(e) => Some(match e.classify() {
                serde_json::error::Category::Io => JsonFault::Io,
                serde_json::error::Category::Syntax => JsonFault::Syntax,
                serde_json::error::Category::Data => JsonFault::Data,
                serde_json::error::Category::Eof => JsonFault::Eof,
            }),
            _ => None,
        }),
    }
}

/// `jsonwebtoken::decode`: reads header and claims of a token, checks the
/// signature with the key and the claims against the rules and the clock.
/// A failure comes back with the check that refused the token, where it
/// was one.
///
/// Whether the call succeeds is left open where the rules ask for a check
/// of time: that depends on the time of the call. Where it succeeds on a
/// token with two `.`, header and claims are those that reading without
/// checks gives, the claims one entry for each name and each value as its
/// JSON text; the signature is one that is taken; and the claims meet
/// the rules. A check that the rules do not ask for refuses no token. On a token with two `.` the call does
/// what [`judged`] says. The leeway must be zero, so that the call's
/// arithmetic on the clock cannot overflow; a clock that stands before
/// 1970 makes the call panic.
#[verifier::external_body]
pub(crate) fn read_checked(token: &str, key: &DecodingKey<'_>, rules: &Validation) -> (r: Result<
    (Header, Vec<(String, String)>),
    (Option<Rejection>, Error),
>)
    requires
        rules.leeway == 0,
    ensures
        r matches Ok(parts) ==> names_distinct(parts.1@) && meets(entries_map(parts.1@), *rules),
        r matches Ok(parts) ==> (rules.aud matches Some(expected) ==> (listed(
            entries_map(parts.1@)["aud"@],
        ) matches Some(held) ==> exists|text: Seq<char>| #[trigger]
            held.contains(text) && texts_in(expected@).contains(text))),
        r matches Err(failure) ==> (failure.0 matches Some(rejection) ==> asks_for(*rules, rejection)),
        dots(token@) == 2 ==> (r matches Ok(parts) ==> {
            &&& parsed_header(header_segment(token@)) == Some(header_view(parts.0))
            &&& parsed_claims(claims_segment(token@)) == Some(entries_map(parts.1@))
        }),
        dots(token@) == 2 ==> (r is Ok ==> signature_taken(
            r->Ok_0.0.alg,
            verifying_content(*key),
            message_of(token@),
            signature_segment(token@),
        )),
        dots(token@) == 2 ==> judged(r, token@, *key, *rules),
{
    match jsonwebtoken::decode::<serde_json::Map<String, Value>>(token, key, rules) {
        Ok(data) => Ok((data.header, data.claims.iter().map(|(n, v)| (n.clone(), v.to_string())).collect())),
        Err(error) => Err((match error.kind() {
            ErrorKind::InvalidSignature => Some(Rejection::Signature),
            ErrorKind::ExpiredSignature => Some(Rejection::Expired),
            ErrorKind::ImmatureSignature => Some(Rejection::Immature),
            ErrorKind::InvalidIssuer => Some(Rejection::Issuer),
            ErrorKind::InvalidSubject => Some(Rejection::Subject),
            ErrorKind::InvalidAudience => Some(Rejection::Audience),
            _ => None,
        }, error)),
    }
}

/// `Validation::set_audience`: sets the expected audience to the set of
/// strings with the texts given, and leaves the other rules as they are.
#[verifier::external_body]
pub(crate) fn with_audience(rules: Validation, audience: &Vec<String>) -> (r: Validation)
    ensures
        r.aud is Some,
        texts_in(r.aud->Some_0@) == texts_of(audience@),
        r.leeway == rules.leeway,
        r.validate_exp == rules.validate_exp,
        r.validate_nbf == rules.validate_nbf,
        r.iss == rules.iss,
        r.sub == rules.sub,
        r.algorithms == rules.algorithms,
{
    let mut rules = rules;
    rules.set_audience(audience.as_slice());
    rules
}

/// `SystemTime::now`: what the clock shows. Nothing is known of it.
#[verifier::external_body]
pub(crate) fn clock() -> SystemTime {
    SystemTime::now()
}

/// `SystemTime::duration_since`, counted from the start of 1970: the time
/// that has passed since then, and a failure for a moment before it.
#[verifier::external_body]
pub(crate) fn since_epoch(moment: &SystemTime) -> Result<Duration, SystemTimeError> {
    moment.duration_since(std::time::UNIX_EPOCH)
}

/// `Duration::as_secs`: the whole seconds in a span of time.
#[verifier::external_body]
pub(crate) fn whole_seconds(span: &Duration) -> u64 {
    span.as_secs()
}

/// `Error::kind`, for every kind but those that a check of the claims
/// gives, which come back as `Other`.
#[verifier::external_body]
pub(crate) fn failure_kind(error: &Error) -> FailureKind {
    match error.kind() {
        ErrorKind::InvalidToken => FailureKind::InvalidToken,
        ErrorKind::InvalidSignature => FailureKind::InvalidSignature,
        ErrorKind::InvalidEcdsaKey => FailureKind::InvalidEcdsaKey,
        ErrorKind::InvalidRsaKey => FailureKind::InvalidRsaKey,
        ErrorKind::InvalidAlgorithmName => FailureKind::InvalidAlgorithmName,
        ErrorKind::InvalidKeyFormat => FailureKind::InvalidKeyFormat,
        ErrorKind::InvalidAlgorithm => FailureKind::InvalidAlgorithm,
        ErrorKind::Base64(_) => FailureKind::Base64,
        ErrorKind::Json(_) => FailureKind::Json,
        ErrorKind::Utf8(_) => FailureKind::Utf8,
        ErrorKind::Crypto(_) => FailureKind::Crypto,
        _ => FailureKind::Other,
    }
}

} // verus!
