//! What holds across the functions of this crate: what is read back from a
//! token that was issued, what reading without checks has in common with
//! checking, and what the options can and cannot change.

use jsonwebtoken::Algorithm;
use vstd::prelude::*;

use crate::algorithm::{family_of, name_of, KeyFamily};
use crate::backend::{parsed_claims, parsed_header, quoted, reads_back, texts_of};
use crate::claims::{all_plain, is_plain};
use crate::decode::{decoded, wants_all, Decoded};
use crate::error::{Rejection, TokenError};
use crate::header::{
    header_entries, is_fresh, keys_distinct, lemma_fresh, lemma_with_optional, optional_entry,
    shown_in, shown_under, HeaderView,
};
use crate::number::decimal_text;
use crate::sign::{issued, moment_after, SignOptions};
use crate::token::{
    claims_segment, dots, header_segment, joined, lemma_joined, lemma_segments, signature_segment,
};
use crate::verify::{verified, VerifyOptions};

verus! {

/// Reading without checks does not look at the signature: two tokens
/// with the same header and claims segments are read alike, whatever
/// their signature segments hold. Both are refused with the same error,
/// or both are read, with the same claims and the same header.
pub proof fn decode_ignores_the_signature(
    header: Seq<char>,
    claims: Seq<char>,
    signature: Seq<char>,
    forged: Seq<char>,
    first: Result<Decoded, TokenError>,
    second: Result<Decoded, TokenError>,
    complete: Option<bool>,
)
    requires
        dots(header) == 0,
        dots(claims) == 0,
        dots(signature) == 0,
        dots(forged) == 0,
        decoded(first, joined(header, claims, signature), complete),
        decoded(second, joined(header, claims, forged), complete),
    ensures
        first is Ok <==> second is Ok,
        first is Err ==> first->Err_0 == second->Err_0,
        first is Ok ==> first->Ok_0.claims() == second->Ok_0.claims(),
        first is Ok ==> parsed_header(header) is Some,
        first is Ok ==> first->Ok_0.shows(
            wants_all(complete),
            parsed_header(header)->Some_0,
            first->Ok_0.claims(),
            signature,
        ),
        first is Ok ==> second->Ok_0.shows(
            wants_all(complete),
            parsed_header(header)->Some_0,
            first->Ok_0.claims(),
            forged,
        ),
{
    lemma_joined(header, claims, signature);
    lemma_joined(header, claims, forged);
}

/// Checking only ever narrows: a token that is accepted is also read
/// without checks, and with the same claims.
pub proof fn accepted_token_is_read_alike(
    token: Seq<char>,
    key: Seq<u8>,
    options: VerifyOptions,
    accepted: Decoded,
    unchecked: Result<Decoded, TokenError>,
    complete: Option<bool>,
)
    requires
        verified(Ok(accepted), token, key, options),
        decoded(unchecked, token, complete),
    ensures
        unchecked is Ok,
        unchecked->Ok_0.claims() == accepted.claims(),
{
}

/// A token is refused for its algorithm whenever that is not among the
/// accepted ones: a token that was issued under an algorithm is an
/// `UnsupportedAlgorithm` to every check that does not accept this
/// algorithm and whose key bytes the first accepted algorithm takes.
pub proof fn unaccepted_algorithm_is_refused(
    token: String,
    payload: Map<Seq<char>, Seq<char>>,
    signing_key: Seq<u8>,
    asked: SignOptions,
    now: u64,
    outcome: Result<Decoded, TokenError>,
    key: Seq<u8>,
    options: VerifyOptions,
)
    requires
        issued(Ok(token), payload, signing_key, asked, now),
        verified(outcome, token@, key, options),
        options.key_accepted(key),
        !options.algorithms@.contains(asked.algorithm_in_effect()),
    ensures
        outcome == Err::<Decoded, TokenError>(TokenError::UnsupportedAlgorithm),
{
}

/// What was issued is what is read: a token that was issued is read
/// without checks, whatever the key, and shows the header in effect and
/// claims under the names of the claims in effect; each value that is a
/// number or a string as this crate writes them is read as it was
/// written.
pub proof fn issued_token_reads_back(
    token: String,
    payload: Map<Seq<char>, Seq<char>>,
    key: Seq<u8>,
    asked: SignOptions,
    now: u64,
    outcome: Result<Decoded, TokenError>,
    complete: Option<bool>,
)
    requires
        issued(Ok(token), payload, key, asked, now),
        decoded(outcome, token@, complete),
    ensures
        outcome is Ok,
        reads_back(asked.claims_in_effect(payload, now), outcome->Ok_0.claims()),
        outcome->Ok_0.shows(
            wants_all(complete),
            asked.header_in_effect(),
            outcome->Ok_0.claims(),
            signature_segment(token@),
        ),
{
}

/// A token that was issued and is then accepted shows the claims in
/// effect when it was issued: the same names, and each value that is a
/// number or a string as this crate writes them as it was written.
pub proof fn accepted_token_shows_what_was_issued(
    token: String,
    payload: Map<Seq<char>, Seq<char>>,
    signing_key: Seq<u8>,
    asked: SignOptions,
    now: u64,
    accepted: Decoded,
    key: Seq<u8>,
    options: VerifyOptions,
)
    requires
        issued(Ok(token), payload, signing_key, asked, now),
        verified(Ok(accepted), token@, key, options),
    ensures
        reads_back(asked.claims_in_effect(payload, now), accepted.claims()),
        options.algorithms@.contains(asked.algorithm_in_effect()),
{
}

/// A token speaks for the issuer, the subject and the audience it was
/// issued with: where a token that was issued with an issuer, a subject
/// or an audience is accepted by a check that expects one, the one it was
/// issued with is the one expected, or one of the audience expected.
pub proof fn accepted_token_is_from_whom_it_was_issued(
    token: String,
    payload: Map<Seq<char>, Seq<char>>,
    signing_key: Seq<u8>,
    asked: SignOptions,
    now: u64,
    accepted: Decoded,
    key: Seq<u8>,
    options: VerifyOptions,
)
    requires
        issued(Ok(token), payload, signing_key, asked, now),
        verified(Ok(accepted), token@, key, options),
    ensures
        asked.issuer matches Some(issuer) ==> (options.issuer matches Some(expected) ==> issuer@
            == expected@),
        asked.subject matches Some(subject) ==> (options.subject matches Some(expected) ==> subject@
            == expected@),
        asked.audience matches Some(audience) ==> (options.audience matches Some(expected)
            ==> texts_of(expected@).contains(audience@)),
{
    lemma_reserved_names();
    let written = asked.claims_in_effect(payload, now);
    let read = accepted.claims();
    if let Some(issuer) = asked.issuer {
        lemma_text_is_plain(issuer@);
        assert(written["iss"@] == quoted(issuer@));
        assert(written.contains_key("iss"@));
        assert(read["iss"@] == quoted(issuer@));
    }
    if let Some(subject) = asked.subject {
        lemma_text_is_plain(subject@);
        assert(written["sub"@] == quoted(subject@));
        assert(written.contains_key("sub"@));
        assert(read["sub"@] == quoted(subject@));
    }
    if let Some(audience) = asked.audience {
        lemma_text_is_plain(audience@);
        assert(written["aud"@] == quoted(audience@));
        assert(written.contains_key("aud"@));
        assert(read["aud"@] == quoted(audience@));
    }
}

/// Whether `name` is one of the names that issuing a token may write:
/// `iat`, `exp`, `nbf`, `aud`, `iss`, `jti`, `sub`.
pub open spec fn is_reserved(name: Seq<char>) -> bool {
    name == "iat"@ || name == "exp"@ || name == "nbf"@ || name == "aud"@ || name == "iss"@ || name
        == "jti"@ || name == "sub"@
}

/// Issuing a token leaves the caller's own claims alone: under every name
/// that is not reserved, the claims in effect hold what the payload holds.
pub proof fn caller_claims_are_kept(
    asked: SignOptions,
    payload: Map<Seq<char>, Seq<char>>,
    now: u64,
    name: Seq<char>,
)
    requires
        !is_reserved(name),
    ensures
        asked.claims_in_effect(payload, now).contains_key(name) == payload.contains_key(name),
        payload.contains_key(name) ==> asked.claims_in_effect(payload, now)[name] == payload[name],
{
}

/// A caller who asks for nothing gets the payload and the time of issue:
/// with no reserved claim asked for and a payload without `iat`, the
/// claims in effect are the payload with `iat` set to the moment of
/// issue; where the token goes without the time of issue, they are the
/// payload itself.
pub proof fn plain_options_add_the_time_of_issue(
    asked: SignOptions,
    payload: Map<Seq<char>, Seq<char>>,
    now: u64,
)
    requires
        asked.expires_in is None,
        asked.not_before is None,
        asked.audience is None,
        asked.issuer is None,
        asked.jwtid is None,
        asked.subject is None,
        !payload.contains_key("iat"@),
    ensures
        asked.no_timestamp == Some(true) ==> asked.claims_in_effect(payload, now) == payload,
        asked.no_timestamp != Some(true) ==> asked.claims_in_effect(payload, now) == payload.insert(
            "iat"@,
            decimal_text(now as nat),
        ),
{
    assert(payload.remove("iat"@) =~= payload);
}

/// Round trip over numbers and strings: where every value of the payload
/// is a number or a string as this crate writes them, a token that was
/// issued and is then accepted shows exactly the claims in effect when it
/// was issued.
pub proof fn plain_claims_come_back_unchanged(
    token: String,
    payload: Map<Seq<char>, Seq<char>>,
    signing_key: Seq<u8>,
    asked: SignOptions,
    now: u64,
    accepted: Decoded,
    key: Seq<u8>,
    options: VerifyOptions,
)
    requires
        all_plain(payload),
        issued(Ok(token), payload, signing_key, asked, now),
        verified(Ok(accepted), token@, key, options),
    ensures
        accepted.claims() == asked.claims_in_effect(payload, now),
{
    let written = asked.claims_in_effect(payload, now);
    let read = accepted.claims();
    lemma_claims_in_effect_are_plain(asked, payload, now);
    assert forall|name: Seq<char>| written.contains_key(name) implies read[name] == written[name] by {
        assert(is_plain(written[name]));
    }
    assert(read =~= written);
}

/// Round trip under a secret: a payload of numbers and strings is always
/// issued under an HMAC algorithm, and the token is accepted under the same
/// secret by every check that accepts the algorithm, has an HMAC algorithm
/// as its first, checks expiry only where the token was issued without
/// `exp` and `nbf` only where it was issued without `nbf`, and expects no
/// other issuer, subject or audience than the token was issued with. What
/// is handed out is the header in effect and exactly the claims in effect
/// when the token was issued: the payload with the time of issue and the
/// reserved claims that were asked for.
pub proof fn round_trip_under_a_secret(
    signed: Result<String, TokenError>,
    payload: Map<Seq<char>, Seq<char>>,
    key: Seq<u8>,
    asked: SignOptions,
    now: u64,
    checked: Result<Decoded, TokenError>,
    options: VerifyOptions,
)
    requires
        family_of(asked.algorithm_in_effect()) == KeyFamily::Hmac,
        asked.header_agrees(),
        all_plain(payload),
        issued(signed, payload, key, asked, now),
        options.uses_secret(),
        options.algorithms@.contains(asked.algorithm_in_effect()),
        options.checks_expiry() ==> asked.expires_in is None && !payload.contains_key("exp"@),
        options.checks_not_before() ==> asked.not_before is None && !payload.contains_key("nbf"@),
        options.issuer matches Some(expected) ==> asked.issuer matches Some(issuer) && issuer@
            == expected@,
        options.subject matches Some(expected) ==> asked.subject matches Some(subject) && subject@
            == expected@,
        options.audience matches Some(expected) ==> asked.audience matches Some(audience)
            && texts_of(expected@).contains(audience@),
        signed matches Ok(token) ==> verified(checked, token@, key, options),
    ensures
        signed is Ok,
        checked is Ok,
        checked->Ok_0.claims() == asked.claims_in_effect(payload, now),
        checked->Ok_0.shows(
            wants_all(options.complete),
            asked.header_in_effect(),
            asked.claims_in_effect(payload, now),
            signature_segment(signed->Ok_0@),
        ),
{
    let written = asked.claims_in_effect(payload, now);
    lemma_claims_in_effect_are_plain(asked, payload, now);
    lemma_reserved_names();
    assert(signed is Ok);
    let token = signed->Ok_0@;
    assert(asked.header_in_effect().alg == asked.algorithm_in_effect());
    let found = parsed_claims(claims_segment(token))->Some_0;
    assert forall|name: Seq<char>| written.contains_key(name) implies found[name] == written[name] by {
        assert(is_plain(written[name]));
    }
    assert(found =~= written);
    if let Some(issuer) = asked.issuer {
        assert(written.contains_key("iss"@) && written["iss"@] == quoted(issuer@));
    }
    if let Some(subject) = asked.subject {
        assert(written.contains_key("sub"@) && written["sub"@] == quoted(subject@));
    }
    if let Some(audience) = asked.audience {
        assert(written.contains_key("aud"@) && written["aud"@] == quoted(audience@));
    }
    assert(options.surely_passed_by(found));
    assert(checked is Ok);
}

/// Round trip by default: a payload of numbers and strings, without
/// `exp` and `iat`, that is signed under a secret with nothing asked for
/// but, at most, to leave the time of issue out, is accepted under the
/// same secret by a check that accepts `HS256` alone and asks for nothing
/// else. What comes back is the payload with the time of issue, or the
/// payload itself where the time of issue was left out.
pub proof fn round_trip_by_default(
    signed: Result<String, TokenError>,
    payload: Map<Seq<char>, Seq<char>>,
    key: Seq<u8>,
    asked: SignOptions,
    now: u64,
    checked: Result<Decoded, TokenError>,
    options: VerifyOptions,
)
    requires
        asked.algorithm_in_effect() == Algorithm::HS256,
        asked.header is None,
        asked.expires_in is None,
        asked.not_before is None,
        asked.audience is None,
        asked.issuer is None,
        asked.jwtid is None,
        asked.subject is None,
        all_plain(payload),
        !payload.contains_key("exp"@),
        !payload.contains_key("iat"@),
        issued(signed, payload, key, asked, now),
        options.algorithms@ == seq![Algorithm::HS256],
        !options.checks_not_before(),
        !options.expects_a_claim(),
        signed matches Ok(token) ==> verified(checked, token@, key, options),
    ensures
        signed is Ok,
        checked is Ok,
        asked.no_timestamp == Some(true) ==> checked->Ok_0.claims() == payload,
        asked.no_timestamp != Some(true) ==> checked->Ok_0.claims() == payload.insert(
            "iat"@,
            decimal_text(now as nat),
        ),
{
    assert(options.algorithms@[0] == Algorithm::HS256);
    round_trip_under_a_secret(signed, payload, key, asked, now, checked, options);
    plain_options_add_the_time_of_issue(asked, payload, now);
}

/// A token for another issuer is a claim mismatch: a token that was
/// issued under an HMAC algorithm with an issuer, without `exp` and `nbf`,
/// is refused as `ClaimMismatch` under the same secret by every check
/// that accepts the algorithm, has an HMAC algorithm as its first, and
/// expects an issuer whose JSON string is another.
pub proof fn another_issuer_is_a_claim_mismatch(
    token: String,
    payload: Map<Seq<char>, Seq<char>>,
    key: Seq<u8>,
    asked: SignOptions,
    now: u64,
    checked: Result<Decoded, TokenError>,
    options: VerifyOptions,
)
    requires
        family_of(asked.algorithm_in_effect()) == KeyFamily::Hmac,
        asked.issuer is Some,
        asked.expires_in is None && !payload.contains_key("exp"@),
        asked.not_before is None && !payload.contains_key("nbf"@),
        issued(Ok(token), payload, key, asked, now),
        options.uses_secret(),
        options.algorithms@.contains(asked.algorithm_in_effect()),
        options.issuer is Some,
        quoted(options.issuer->Some_0@) != quoted(asked.issuer->Some_0@),
        verified(checked, token@, key, options),
    ensures
        checked == Err::<Decoded, TokenError>(TokenError::ClaimMismatch),
{
    lemma_reserved_names();
    let written = asked.claims_in_effect(payload, now);
    let found = parsed_claims(claims_segment(token@))->Some_0;
    let issuer = asked.issuer->Some_0;
    lemma_text_is_plain(issuer@);
    assert(asked.header_in_effect().alg == asked.algorithm_in_effect());
    assert(written.contains_key("iss"@) && written["iss"@] == quoted(issuer@));
    assert(found.contains_key("iss"@) && found["iss"@] == quoted(issuer@));
    assert(!written.contains_key("exp"@) && !written.contains_key("nbf"@));
    assert(found.dom() == written.dom());
    assert(!found.contains_key("exp"@) && !found.contains_key("nbf"@));
    assert(options.verdict_on(found) == Some(Some(Rejection::Issuer)));
}

/// A forged signature is found out: of a token that was issued under an
/// HMAC algorithm, no other signature segment is taken under the same
/// secret. Every check that accepts the algorithm and has an HMAC
/// algorithm as its first refuses the token with another third segment
/// as `SignatureInvalid`, whatever else it accepts and whatever the
/// claims hold.
pub proof fn forged_signature_is_refused(
    token: String,
    payload: Map<Seq<char>, Seq<char>>,
    key: Seq<u8>,
    asked: SignOptions,
    now: u64,
    forged: Seq<char>,
    checked: Result<Decoded, TokenError>,
    options: VerifyOptions,
)
    requires
        family_of(asked.algorithm_in_effect()) == KeyFamily::Hmac,
        issued(Ok(token), payload, key, asked, now),
        dots(forged) == 0,
        forged != signature_segment(token@),
        options.uses_secret(),
        options.algorithms@.contains(asked.algorithm_in_effect()),
        verified(
            checked,
            joined(header_segment(token@), claims_segment(token@), forged),
            key,
            options,
        ),
    ensures
        checked == Err::<Decoded, TokenError>(TokenError::SignatureInvalid),
{
    lemma_segments(token@);
    lemma_joined(header_segment(token@), claims_segment(token@), forged);
    assert(asked.header_in_effect().alg == asked.algorithm_in_effect());
}

/// The seven reserved names differ from each other.
proof fn lemma_reserved_names()
    ensures
        "iat"@ != "exp"@ && "iat"@ != "nbf"@ && "iat"@ != "aud"@ && "iat"@ != "iss"@ && "iat"@
            != "jti"@ && "iat"@ != "sub"@,
        "exp"@ != "nbf"@ && "exp"@ != "aud"@ && "exp"@ != "iss"@ && "exp"@ != "jti"@ && "exp"@
            != "sub"@,
        "nbf"@ != "aud"@ && "nbf"@ != "iss"@ && "nbf"@ != "jti"@ && "nbf"@ != "sub"@,
        "aud"@ != "iss"@ && "aud"@ != "jti"@ && "aud"@ != "sub"@,
        "iss"@ != "jti"@ && "iss"@ != "sub"@,
        "jti"@ != "sub"@,
{
    reveal_strlit("iat");
    reveal_strlit("exp");
    reveal_strlit("nbf");
    reveal_strlit("aud");
    reveal_strlit("iss");
    reveal_strlit("jti");
    reveal_strlit("sub");
    assert("iat"@[0] == 'i' && "iat"@[1] == 'a' && "exp"@[0] == 'e' && "nbf"@[0] == 'n');
    assert("aud"@[0] == 'a' && "iss"@[0] == 'i' && "iss"@[1] == 's' && "jti"@[0] == 'j');
    assert("sub"@[0] == 's');
}

/// The claims in effect are numbers and strings as this crate writes them
/// wherever the payload's are.
proof fn lemma_claims_in_effect_are_plain(
    asked: SignOptions,
    payload: Map<Seq<char>, Seq<char>>,
    now: u64,
)
    requires
        all_plain(payload),
    ensures
        forall|name: Seq<char>|
            asked.claims_in_effect(payload, now).contains_key(name) ==> is_plain(
                #[trigger] asked.claims_in_effect(payload, now)[name],
            ),
{
    let written = asked.claims_in_effect(payload, now);
    assert forall|name: Seq<char>| written.contains_key(name) implies is_plain(
        #[trigger] written[name],
    ) by {
        lemma_number_is_plain(now);
        if let Some(offset) = asked.expires_in {
            lemma_number_is_plain(moment_after(now, offset));
        }
        if let Some(offset) = asked.not_before {
            lemma_number_is_plain(moment_after(now, offset));
        }
        if let Some(text) = asked.audience {
            lemma_text_is_plain(text@);
        }
        if let Some(text) = asked.issuer {
            lemma_text_is_plain(text@);
        }
        if let Some(text) = asked.jwtid {
            lemma_text_is_plain(text@);
        }
        if let Some(text) = asked.subject {
            lemma_text_is_plain(text@);
        }
        if payload.contains_key(name) {
            assert(is_plain(payload[name]));
        }
    }
}

/// The decimal digits of a number are a number as this crate writes it.
proof fn lemma_number_is_plain(number: u64)
    ensures
        is_plain(decimal_text(number as nat)),
{
}

/// The JSON string for a text is a string as this crate writes it.
proof fn lemma_text_is_plain(text: Seq<char>)
    ensures
        is_plain(quoted(text)),
{
}

/// The seven names under which a header is shown differ from each other.
proof fn lemma_field_names()
    ensures
        "alg"@ != "cty"@ && "alg"@ != "jku"@ && "alg"@ != "kid"@ && "alg"@ != "typ"@ && "alg"@
            != "x5t"@ && "alg"@ != "x5u"@,
        "cty"@ != "jku"@ && "cty"@ != "kid"@ && "cty"@ != "typ"@ && "cty"@ != "x5t"@ && "cty"@
            != "x5u"@,
        "jku"@ != "kid"@ && "jku"@ != "typ"@ && "jku"@ != "x5t"@ && "jku"@ != "x5u"@,
        "kid"@ != "typ"@ && "kid"@ != "x5t"@ && "kid"@ != "x5u"@,
        "typ"@ != "x5t"@ && "typ"@ != "x5u"@,
        "x5t"@ != "x5u"@,
{
    reveal_strlit("alg");
    reveal_strlit("cty");
    reveal_strlit("jku");
    reveal_strlit("kid");
    reveal_strlit("typ");
    reveal_strlit("x5t");
    reveal_strlit("x5u");
    assert("alg"@[0] == 'a' && "cty"@[0] == 'c' && "jku"@[0] == 'j' && "kid"@[0] == 'k');
    assert("typ"@[0] == 't' && "x5t"@[0] == 'x' && "x5u"@[0] == 'x');
    assert("x5t"@[2] == 't' && "x5u"@[2] == 'u');
}

/// A header is shown without its absent fields: looking a name up in the
/// entries gives the text that the header holds under it, and nothing
/// where the header holds none. No name stands twice.
pub proof fn absent_fields_are_omitted(header: HeaderView, key: Seq<char>)
    ensures
        shown_in(header_entries(header), key) == shown_under(header, key),
        keys_distinct(header_entries(header)),
{
    lemma_field_names();
    let (alg, cty, jku, kid, typ, x5t, x5u) = ("alg"@, "cty"@, "jku"@, "kid"@, "typ"@, "x5t"@, "x5u"@);
    let e0 = seq![(alg, name_of(header.alg))];
    assert(e0.drop_last() =~= Seq::<(Seq<char>, Seq<char>)>::empty());
    assert(shown_in(e0.drop_last(), key) is None);
    assert(shown_in(e0, key) == if key == alg {
        Some(name_of(header.alg))
    } else {
        None::<Seq<char>>
    });
    assert(keys_distinct(e0));
    assert(is_fresh(e0, cty) && is_fresh(e0, jku) && is_fresh(e0, kid) && is_fresh(e0, typ)
        && is_fresh(e0, x5t) && is_fresh(e0, x5u));

    let e1 = e0 + optional_entry(cty, header.cty);
    lemma_with_optional(e0, cty, header.cty);
    assert(is_fresh(e1, jku) && is_fresh(e1, kid) && is_fresh(e1, typ) && is_fresh(e1, x5t)
        && is_fresh(e1, x5u));

    let e2 = e1 + optional_entry(jku, header.jku);
    lemma_with_optional(e1, jku, header.jku);
    assert(is_fresh(e2, kid) && is_fresh(e2, typ) && is_fresh(e2, x5t) && is_fresh(e2, x5u));

    let e3 = e2 + optional_entry(kid, header.kid);
    lemma_with_optional(e2, kid, header.kid);
    assert(is_fresh(e3, typ) && is_fresh(e3, x5t) && is_fresh(e3, x5u));

    let e4 = e3 + optional_entry(typ, header.typ);
    lemma_with_optional(e3, typ, header.typ);
    assert(is_fresh(e4, x5t) && is_fresh(e4, x5u));

    let e5 = e4 + optional_entry(x5t, header.x5t);
    lemma_with_optional(e4, x5t, header.x5t);
    assert(is_fresh(e5, x5u));

    let e6 = e5 + optional_entry(x5u, header.x5u);
    lemma_with_optional(e5, x5u, header.x5u);
    assert(e6 == header_entries(header));

    if key == alg {
        assert(shown_in(e1, key) == shown_in(e0, key));
        assert(shown_in(e2, key) == shown_in(e1, key));
        assert(shown_in(e3, key) == shown_in(e2, key));
        assert(shown_in(e4, key) == shown_in(e3, key));
        assert(shown_in(e5, key) == shown_in(e4, key));
        assert(shown_in(e6, key) == shown_in(e5, key));
    } else if key == cty {
        lemma_fresh(e0, cty);
        assert(shown_in(e1, key) == header.cty);
        assert(shown_in(e2, key) == shown_in(e1, key));
        assert(shown_in(e3, key) == shown_in(e2, key));
        assert(shown_in(e4, key) == shown_in(e3, key));
        assert(shown_in(e5, key) == shown_in(e4, key));
        assert(shown_in(e6, key) == shown_in(e5, key));
    } else if key == jku {
        lemma_fresh(e1, jku);
        assert(shown_in(e2, key) == header.jku);
        assert(shown_in(e3, key) == shown_in(e2, key));
        assert(shown_in(e4, key) == shown_in(e3, key));
        assert(shown_in(e5, key) == shown_in(e4, key));
        assert(shown_in(e6, key) == shown_in(e5, key));
    } else if key == kid {
        lemma_fresh(e2, kid);
        assert(shown_in(e3, key) == header.kid);
        assert(shown_in(e4, key) == shown_in(e3, key));
        assert(shown_in(e5, key) == shown_in(e4, key));
        assert(shown_in(e6, key) == shown_in(e5, key));
    } else if key == typ {
        lemma_fresh(e3, typ);
        assert(shown_in(e4, key) == header.typ);
        assert(shown_in(e5, key) == shown_in(e4, key));
        assert(shown_in(e6, key) == shown_in(e5, key));
    } else if key == x5t {
        lemma_fresh(e4, x5t);
        assert(shown_in(e5, key) == header.x5t);
        assert(shown_in(e6, key) == shown_in(e5, key));
    } else if key == x5u {
        lemma_fresh(e5, x5u);
        assert(shown_in(e6, key) == header.x5u);
    } else {
        assert(shown_in(e1, key) == shown_in(e0, key));
        assert(shown_in(e2, key) == shown_in(e1, key));
        assert(shown_in(e3, key) == shown_in(e2, key));
        assert(shown_in(e4, key) == shown_in(e3, key));
        assert(shown_in(e5, key) == shown_in(e4, key));
        assert(shown_in(e6, key) == shown_in(e5, key));
    }
}

} // verus!
