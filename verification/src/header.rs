//! The header of a token, and the form in which it is shown to a caller: a
//! list of named texts that holds the algorithm and, of the optional
//! fields, those that are there.

use jsonwebtoken::{Algorithm, Header};
use vstd::prelude::*;

use crate::algorithm::{alg_to_string, name_of};

verus! {

/// What a header holds.
pub ghost struct HeaderView {
    /// The algorithm that signs the token.
    pub alg: Algorithm,
    /// The content type.
    pub cty: Option<Seq<char>>,
    /// The address of the key set.
    pub jku: Option<Seq<char>>,
    /// The name of the key.
    pub kid: Option<Seq<char>>,
    /// The type of the token.
    pub typ: Option<Seq<char>>,
    /// The SHA-1 thumbprint of the certificate.
    pub x5t: Option<Seq<char>>,
    /// The address of the certificate chain.
    pub x5u: Option<Seq<char>>,
}

/// The text of an optional field.
pub open spec fn text_of(field: Option<String>) -> Option<Seq<char>> {
    match field {
        Some(text) => Some(text@),
        None => None,
    }
}

/// What `header` holds.
pub open spec fn header_view(header: Header) -> HeaderView {
    HeaderView {
        alg: header.alg,
        cty: text_of(header.cty),
        jku: text_of(header.jku),
        kid: text_of(header.kid),
        typ: text_of(header.typ),
        x5t: text_of(header.x5t),
        x5u: text_of(header.x5u),
    }
}

/// The entry that an optional field gives: one where the field is there,
/// none where it is absent.
pub open spec fn optional_entry(key: Seq<char>, value: Option<Seq<char>>) -> Seq<(Seq<char>, Seq<char>)> {
    match value {
        Some(text) => seq![(key, text)],
        None => Seq::empty(),
    }
}

/// The entries that show a header: `alg` first, then `cty`, `jku`, `kid`,
/// `typ`, `x5t` and `x5u`, each only where the field is there.
pub open spec fn header_entries(header: HeaderView) -> Seq<(Seq<char>, Seq<char>)> {
    seq![("alg"@, name_of(header.alg))] + optional_entry("cty"@, header.cty) + optional_entry(
        "jku"@,
        header.jku,
    ) + optional_entry("kid"@, header.kid) + optional_entry("typ"@, header.typ) + optional_entry(
        "x5t"@,
        header.x5t,
    ) + optional_entry("x5u"@, header.x5u)
}

/// The text that a header shows under `key`, if it shows one.
pub open spec fn shown_under(header: HeaderView, key: Seq<char>) -> Option<Seq<char>> {
    if key == "alg"@ {
        Some(name_of(header.alg))
    } else if key == "cty"@ {
        header.cty
    } else if key == "jku"@ {
        header.jku
    } else if key == "kid"@ {
        header.kid
    } else if key == "typ"@ {
        header.typ
    } else if key == "x5t"@ {
        header.x5t
    } else if key == "x5u"@ {
        header.x5u
    } else {
        None
    }
}

/// The text that stands under `key` in a list of entries, if there is one;
/// the last, where there are several.
pub open spec fn shown_in(entries: Seq<(Seq<char>, Seq<char>)>, key: Seq<char>) -> Option<Seq<char>>
    decreases entries.len(),
{
    if entries.len() == 0 {
        None
    } else if entries.last().0 == key {
        Some(entries.last().1)
    } else {
        shown_in(entries.drop_last(), key)
    }
}

/// Whether `key` stands in no entry.
pub open spec fn is_fresh(entries: Seq<(Seq<char>, Seq<char>)>, key: Seq<char>) -> bool {
    forall|i: int| 0 <= i < entries.len() ==> entries[i].0 != key
}

/// Whether no name stands twice in the entries.
pub open spec fn keys_distinct(entries: Seq<(Seq<char>, Seq<char>)>) -> bool {
    forall|i: int, j: int| 0 <= i < j < entries.len() ==> entries[i].0 != entries[j].0
}

/// A name that stands in no entry shows nothing.
pub proof fn lemma_fresh(entries: Seq<(Seq<char>, Seq<char>)>, key: Seq<char>)
    requires
        is_fresh(entries, key),
    ensures
        shown_in(entries, key) is None,
    decreases entries.len(),
{
    if entries.len() > 0 {
        lemma_fresh(entries.drop_last(), key);
    }
}

/// Adding an optional field under a fresh name changes what is shown
/// under that name alone, and keeps the names distinct.
pub proof fn lemma_with_optional(entries: Seq<(Seq<char>, Seq<char>)>, key: Seq<char>, value: Option<Seq<char>>)
    ensures
        shown_in(entries + optional_entry(key, value), key) == if value is Some {
            value
        } else {
            shown_in(entries, key)
        },
        forall|other: Seq<char>|
            other != key ==> shown_in(entries + optional_entry(key, value), other) == shown_in(
                entries,
                other,
            ),
        forall|other: Seq<char>|
            other != key && is_fresh(entries, other) ==> is_fresh(
                entries + optional_entry(key, value),
                other,
            ),
        is_fresh(entries, key) && keys_distinct(entries) ==> keys_distinct(
            entries + optional_entry(key, value),
        ),
{
    let after = entries + optional_entry(key, value);
    match value {
        Some(text) => {
            assert(after.drop_last() =~= entries);
        },
        None => {
            assert(after =~= entries);
        },
    }
}

/// A list of named texts to which a field can be added where it is there.
pub trait SetOptional {
    /// Adds `value` under `key` where there is a value, and nothing where
    /// there is none.
    fn set_optional(&mut self, key: &str, value: Option<String>);
}

impl SetOptional for Vec<(String, String)> {
    fn set_optional(&mut self, key: &str, value: Option<String>)
        ensures
            final(self).deep_view() == old(self).deep_view() + optional_entry(key@, text_of(value)),
    {
        match value {
            Some(text) => {
                self.push((key.to_owned(), text));
                assert(final(self).deep_view() =~= old(self).deep_view() + seq![(key@, text@)]);
            },
            None => {
                assert(final(self).deep_view() =~= old(self).deep_view() + Seq::empty());
            },
        }
    }
}

/// A value that can be shown as a list of named texts.
pub trait ToObject {
    /// The list that shows the value.
    fn to_object(self) -> Vec<(String, String)>;
}

impl ToObject for Header {
    /// Shows the header: the algorithm under `alg`, then each optional
    /// field that is there under its own name. A field that is absent
    /// gives no entry.
    fn to_object(self) -> (object: Vec<(String, String)>)
        ensures
            object.deep_view() == header_entries(header_view(self)),
    {
        let mut object: Vec<(String, String)> = Vec::new();
        object.push(("alg".to_owned(), alg_to_string(self.alg).to_owned()));
        assert(object.deep_view() =~= seq![("alg"@, name_of(self.alg))]);
        object.set_optional("cty", self.cty);
        object.set_optional("jku", self.jku);
        object.set_optional("kid", self.kid);
        object.set_optional("typ", self.typ);
        object.set_optional("x5t", self.x5t);
        object.set_optional("x5u", self.x5u);
        object
    }
}

} // verus!
