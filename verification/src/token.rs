//! The wire format of a token: three segments joined by `.`, none of which
//! holds a `.` itself.

use vstd::prelude::*;
use vstd::string::*;

use crate::error::TokenError;

verus! {

/// Where the first `.` of `text` stands; the length of `text` where it has
/// none.
pub open spec fn first_dot(text: Seq<char>) -> int
    decreases text.len(),
{
    if text.len() == 0 || text[0] == '.' {
        0
    } else {
        1 + first_dot(text.drop_first())
    }
}

/// What stands before the first `.` of `text`; all of `text` where it has
/// none.
pub open spec fn before_dot(text: Seq<char>) -> Seq<char> {
    text.take(first_dot(text))
}

/// What stands behind the first `.` of `text`; nothing where it has none.
pub open spec fn after_dot(text: Seq<char>) -> Seq<char> {
    if first_dot(text) < text.len() {
        text.skip(first_dot(text) + 1)
    } else {
        Seq::empty()
    }
}

/// How many `.` there are in `text`.
pub open spec fn dots(text: Seq<char>) -> nat
    decreases text.len(),
{
    if 0 <= first_dot(text) < text.len() {
        1 + dots(after_dot(text))
    } else {
        0
    }
}

/// The first segment of a token: its header, in base64url.
pub open spec fn header_segment(token: Seq<char>) -> Seq<char> {
    before_dot(token)
}

/// The second segment of a token: its claims, in base64url.
pub open spec fn claims_segment(token: Seq<char>) -> Seq<char> {
    before_dot(after_dot(token))
}

/// The third segment of a token: its signature, in base64url.
pub open spec fn signature_segment(token: Seq<char>) -> Seq<char> {
    after_dot(after_dot(token))
}

/// What a token's signature is made over: its header segment, a `.`, and
/// its claims segment.
pub open spec fn message_of(token: Seq<char>) -> Seq<char> {
    header_segment(token) + seq!['.'] + claims_segment(token)
}

/// Whether `c` is a character of base64url: a letter, a digit, `-` or `_`.
pub open spec fn is_base64url(c: char) -> bool {
    ('A' <= c && c <= 'Z') || ('a' <= c && c <= 'z') || ('0' <= c && c <= '9') || c == '-' || c == '_'
}

/// Whether `text` is a segment as it is written into a token: not empty,
/// and of base64url characters alone, without padding.
pub open spec fn is_segment(text: Seq<char>) -> bool {
    text.len() > 0 && forall|i: int| 0 <= i < text.len() ==> is_base64url(#[trigger] text[i])
}

/// Three segments as one token.
pub open spec fn joined(header: Seq<char>, claims: Seq<char>, signature: Seq<char>) -> Seq<char> {
    header + seq!['.'] + claims + seq!['.'] + signature
}

/// `first_dot` is a position in the text or its length, nothing before it
/// is a `.`, and what stands there is one.
pub proof fn lemma_first_dot(text: Seq<char>)
    ensures
        0 <= first_dot(text) <= text.len(),
        forall|i: int| 0 <= i < first_dot(text) ==> text[i] != '.',
        first_dot(text) < text.len() ==> text[first_dot(text)] == '.',
    decreases text.len(),
{
    if text.len() != 0 && text[0] != '.' {
        let rest = text.drop_first();
        lemma_first_dot(rest);
        assert forall|i: int| 0 <= i < first_dot(text) implies text[i] != '.' by {
            if i > 0 {
                assert(text[i] == rest[i - 1]);
            }
        }
    }
}

/// A position with no `.` before it, which holds a `.` or is the end of the
/// text, is `first_dot`.
pub proof fn lemma_first_dot_is(text: Seq<char>, at: int)
    requires
        0 <= at <= text.len(),
        forall|i: int| 0 <= i < at ==> text[i] != '.',
        at < text.len() ==> text[at] == '.',
    ensures
        first_dot(text) == at,
{
    lemma_first_dot(text);
    if first_dot(text) < at {
        assert(text[first_dot(text)] != '.');
    }
}

/// A text has no `.` exactly where it counts none.
pub proof fn lemma_no_dots(text: Seq<char>)
    ensures
        dots(text) == 0 <==> !text.contains('.'),
{
    lemma_first_dot(text);
    if text.contains('.') {
        let i = choose|i: int| 0 <= i < text.len() && text[i] == '.';
        assert(first_dot(text) <= i);
    }
}

/// The segments of a token with two `.` are its parts, and none holds a
/// `.`.
pub proof fn lemma_segments(token: Seq<char>)
    requires
        dots(token) == 2,
    ensures
        token == joined(header_segment(token), claims_segment(token), signature_segment(token)),
        dots(header_segment(token)) == 0,
        dots(claims_segment(token)) == 0,
        dots(signature_segment(token)) == 0,
{
    let rest = after_dot(token);
    lemma_first_dot(token);
    lemma_first_dot(rest);
    assert(dots(rest) == 1);
    assert(dots(after_dot(rest)) == 0);
    assert(token =~= before_dot(token) + seq!['.'] + rest);
    assert(rest =~= before_dot(rest) + seq!['.'] + after_dot(rest));
    assert(token =~= joined(before_dot(token), before_dot(rest), after_dot(rest)));
    lemma_no_dots(before_dot(token));
    lemma_no_dots(before_dot(rest));
}

/// The message of a token with two `.` parts at its `.` into the header
/// segment and the claims segment.
pub proof fn lemma_message(token: Seq<char>)
    requires
        dots(token) == 2,
    ensures
        before_dot(message_of(token)) == header_segment(token),
        after_dot(message_of(token)) == claims_segment(token),
{
    lemma_segments(token);
    let message = message_of(token);
    lemma_no_dots(header_segment(token));
    lemma_first_dot_is(message, header_segment(token).len() as int);
    assert(before_dot(message) =~= header_segment(token));
    assert(after_dot(message) =~= claims_segment(token));
}

/// Three segments without a `.`, once joined, split into themselves again.
pub proof fn lemma_joined(header: Seq<char>, claims: Seq<char>, signature: Seq<char>)
    requires
        dots(header) == 0,
        dots(claims) == 0,
        dots(signature) == 0,
    ensures
        dots(joined(header, claims, signature)) == 2,
        header_segment(joined(header, claims, signature)) == header,
        claims_segment(joined(header, claims, signature)) == claims,
        signature_segment(joined(header, claims, signature)) == signature,
{
    let token = joined(header, claims, signature);
    let rest = claims + seq!['.'] + signature;
    lemma_no_dots(header);
    lemma_no_dots(claims);
    lemma_no_dots(signature);
    lemma_first_dot_is(token, header.len() as int);
    assert(before_dot(token) =~= header);
    assert(after_dot(token) =~= rest);
    lemma_first_dot_is(rest, claims.len() as int);
    assert(before_dot(rest) =~= claims);
    assert(after_dot(rest) =~= signature);
    assert(dots(rest) == 1 + dots(signature));
    assert(dots(token) == 1 + dots(rest));
}

/// Splits a token into its header, claims and signature segments.
///
/// Succeeds exactly on a text with two `.`; any other text is a
/// `MalformedToken`. The segments are handed out as they stand, still in
/// base64url.
pub fn split<'a>(token: &'a str) -> (r: Result<(&'a str, &'a str, &'a str), TokenError>)
    ensures
        r is Ok <==> dots(token@) == 2,
        r matches Ok((header, claims, signature)) ==> {
            &&& header@ == header_segment(token@)
            &&& claims@ == claims_segment(token@)
            &&& signature@ == signature_segment(token@)
        },
        r matches Err(e) ==> e == TokenError::MalformedToken,
{
    let n = token.unicode_len();
    let mut at: usize = 0;
    let mut first: usize = n;
    let mut second: usize = n;
    let mut third: bool = false;
    for c in it: token.chars()
        invariant
            it.seq() == token@,
            n == token@.len(),
            at == it.index(),
            first <= second <= n,
            first < n ==> first < at && token@[first as int] == '.',
            second < n ==> first < second < at && token@[second as int] == '.',
            forall|i: int| 0 <= i < at && i < first ==> token@[i] != '.',
            forall|i: int| first < i < at && i < second ==> token@[i] != '.',
            !third ==> forall|i: int| second < i < at ==> token@[i] != '.',
            third ==> second < n && exists|i: int| second < i < n && token@[i] == '.',
    {
        if c == '.' {
            if first == n {
                first = at;
            } else if second == n {
                second = at;
            } else {
                third = true;
            }
        }
        at = at + 1;
    }
    proof {
        let text = token@;
        lemma_first_dot(text);
        if first < n {
            lemma_first_dot_is(text, first as int);
            let rest = text.skip(first + 1);
            lemma_first_dot(rest);
            assert(dots(text) == 1 + dots(rest));
            if second < n {
                lemma_first_dot_is(rest, second - first - 1);
                let tail = rest.skip(second - first);
                assert(tail =~= text.skip(second + 1));
                lemma_first_dot(tail);
                assert(dots(rest) == 1 + dots(tail));
                if third {
                    let i = choose|i: int| second < i < n && text[i] == '.';
                    assert(tail[i - second - 1] == '.');
                    assert(first_dot(tail) < tail.len());
                    assert(dots(tail) == 1 + dots(after_dot(tail)));
                } else {
                    lemma_first_dot_is(tail, tail.len() as int);
                    assert(dots(tail) == 0);
                }
            } else {
                lemma_first_dot_is(rest, rest.len() as int);
                assert(dots(rest) == 0);
            }
        } else {
            lemma_first_dot_is(text, n as int);
            assert(dots(text) == 0);
        }
    }
    if second < n && !third {
        let header = token.substring_char(0, first);
        let claims = token.substring_char(first + 1, second);
        let signature = token.substring_char(second + 1, n);
        proof {
            let text = token@;
            let rest = text.skip(first + 1);
            assert(claims@ =~= rest.take(second - first - 1));
            assert(signature@ =~= rest.skip(second - first));
        }
        Ok((header, claims, signature))
    } else {
        Err(TokenError::MalformedToken)
    }
}

} // verus!
