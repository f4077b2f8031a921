//! The claims of a token: a mapping from claim names to JSON values, in
//! which a name stands once and a later write replaces an earlier one.
//!
//! A value is held as its JSON text: `3600`, `"alice"`, `["a","b"]`. The
//! crate writes numbers and strings of its own and carries every other
//! value through as it was given.

use vstd::prelude::*;

use crate::backend::{quote, quoted, reads_as_json};
use crate::number::{decimal_text, read_decimal, write_decimal};

verus! {

/// Whether `json` is a number or a string as this crate writes them: the
/// decimal digits of an unsigned 64-bit integer, or the JSON string for a
/// text.
pub open spec fn is_plain(json: Seq<char>) -> bool {
    ||| exists|number: u64| json == decimal_text(number as nat)
    ||| exists|text: Seq<char>| json == quoted(text)
}

/// Whether every value of `claims` is a number or a string as this crate
/// writes them.
pub open spec fn all_plain(claims: Map<Seq<char>, Seq<char>>) -> bool {
    forall|name: Seq<char>| claims.contains_key(name) ==> is_plain(#[trigger] claims[name])
}

/// Whether `json` is the text of a JSON value.
pub open spec fn is_json(json: Seq<char>) -> bool {
    is_plain(json) || reads_as_json(json)
}

/// Whether every value of `claims` is the text of a JSON value.
pub open spec fn all_json(claims: Map<Seq<char>, Seq<char>>) -> bool {
    forall|name: Seq<char>| claims.contains_key(name) ==> is_json(#[trigger] claims[name])
}

/// Whether no name stands twice in `entries`.
pub open spec fn names_distinct(entries: Seq<(String, String)>) -> bool {
    forall|i: int, j: int| 0 <= i < j < entries.len() ==> entries[i].0@ != entries[j].0@
}

/// The mapping that a list of named values stands for: each name with the
/// value written for it last.
pub open spec fn entries_map(entries: Seq<(String, String)>) -> Map<Seq<char>, Seq<char>>
    decreases entries.len(),
{
    if entries.len() == 0 {
        Map::empty()
    } else {
        entries_map(entries.drop_last()).insert(entries.last().0@, entries.last().1@)
    }
}

/// A name that no entry holds is not in the mapping.
pub proof fn lemma_absent(entries: Seq<(String, String)>, name: Seq<char>)
    requires
        forall|i: int| 0 <= i < entries.len() ==> entries[i].0@ != name,
    ensures
        !entries_map(entries).contains_key(name),
    decreases entries.len(),
{
    if entries.len() > 0 {
        lemma_absent(entries.drop_last(), name);
    }
}

/// Two lists with the same names and values, place for place, stand for
/// the same mapping.
pub proof fn lemma_same_texts(first: Seq<(String, String)>, second: Seq<(String, String)>)
    requires
        first.len() == second.len(),
        forall|i: int|
            0 <= i < first.len() ==> first[i].0@ == second[i].0@ && first[i].1@ == second[i].1@,
    ensures
        entries_map(first) == entries_map(second),
        names_distinct(second) ==> names_distinct(first),
    decreases first.len(),
{
    if first.len() > 0 {
        lemma_same_texts(first.drop_last(), second.drop_last());
    }
}

/// A name in the mapping is the name of an entry.
pub proof fn lemma_holder(entries: Seq<(String, String)>, name: Seq<char>)
    requires
        entries_map(entries).contains_key(name),
    ensures
        exists|i: int| 0 <= i < entries.len() && #[trigger] entries[i].0@ == name,
{
    if forall|i: int| 0 <= i < entries.len() ==> #[trigger] entries[i].0@ != name {
        lemma_absent(entries, name);
    }
}

/// Where names are distinct, each entry's name maps to that entry's value.
pub proof fn lemma_present(entries: Seq<(String, String)>, at: int)
    requires
        names_distinct(entries),
        0 <= at < entries.len(),
    ensures
        entries_map(entries).contains_key(entries[at].0@),
        entries_map(entries)[entries[at].0@] == entries[at].1@,
    decreases entries.len(),
{
    if at < entries.len() - 1 {
        lemma_present(entries.drop_last(), at);
    }
}

/// Replacing the value of an entry is a write under that entry's name.
proof fn lemma_replace(entries: Seq<(String, String)>, at: int, name: String, value: String)
    requires
        names_distinct(entries),
        0 <= at < entries.len(),
        name@ == entries[at].0@,
    ensures
        names_distinct(entries.update(at, (name, value))),
        entries_map(entries.update(at, (name, value))) == entries_map(entries).insert(name@, value@),
    decreases entries.len(),
{
    let after = entries.update(at, (name, value));
    if at < entries.len() - 1 {
        lemma_replace(entries.drop_last(), at, name, value);
        assert(after.drop_last() =~= entries.drop_last().update(at, (name, value)));
        assert(entries_map(after) =~= entries_map(entries).insert(name@, value@));
    } else {
        assert(after.drop_last() =~= entries.drop_last());
        assert(entries_map(after) =~= entries_map(entries).insert(name@, value@));
    }
}

/// Taking an entry out takes its name out of the mapping.
proof fn lemma_remove(entries: Seq<(String, String)>, at: int)
    requires
        names_distinct(entries),
        0 <= at < entries.len(),
    ensures
        names_distinct(entries.remove(at)),
        entries_map(entries.remove(at)) == entries_map(entries).remove(entries[at].0@),
    decreases entries.len(),
{
    let after = entries.remove(at);
    if at < entries.len() - 1 {
        lemma_remove(entries.drop_last(), at);
        assert(after.drop_last() =~= entries.drop_last().remove(at));
        assert(after.last() == entries.last());
        assert(entries_map(after) =~= entries_map(entries).remove(entries[at].0@));
    } else {
        assert(after =~= entries.drop_last());
        lemma_absent(after, entries[at].0@);
        assert(entries_map(after) =~= entries_map(entries).remove(entries[at].0@));
    }
}

/// The claims of a token.
#[derive(Debug)]
pub struct ClaimSet {
    entries: Vec<(String, String)>,
}

impl View for ClaimSet {
    type V = Map<Seq<char>, Seq<char>>;

    /// The mapping from claim names to values.
    closed spec fn view(&self) -> Map<Seq<char>, Seq<char>> {
        entries_map(self.entries@)
    }
}

impl Clone for ClaimSet {
    /// A set with the same claims.
    fn clone(&self) -> (claims: ClaimSet)
        ensures
            claims@ == self@,
    {
        let mut entries: Vec<(String, String)> = Vec::new();
        let mut i: usize = 0;
        while i < self.entries.len()
            invariant
                i <= self.entries@.len(),
                entries@.len() == i,
                forall|j: int|
                    0 <= j < i ==> entries@[j].0@ == self.entries@[j].0@ && entries@[j].1@
                        == self.entries@[j].1@,
            decreases self.entries@.len() - i,
        {
            entries.push((self.entries[i].0.clone(), self.entries[i].1.clone()));
            i = i + 1;
        }
        proof {
            use_type_invariant(self);
            lemma_same_texts(entries@, self.entries@);
        }
        ClaimSet { entries }
    }
}

impl ClaimSet {
    #[verifier::type_invariant]
    spec fn well_formed(self) -> bool {
        names_distinct(self.entries@)
    }

    /// A set without claims.
    pub fn new() -> (claims: ClaimSet)
        ensures
            claims@ == Map::<Seq<char>, Seq<char>>::empty(),
    {
        ClaimSet { entries: Vec::new() }
    }

    /// The claims as a list of names and JSON texts, one entry for each
    /// name.
    pub fn entries(&self) -> (entries: &Vec<(String, String)>)
        ensures
            names_distinct(entries@),
            entries_map(entries@) == self@,
    {
        proof {
            use_type_invariant(self);
        }
        &self.entries
    }

    /// The claims that a list of names and JSON texts stands for: of two
    /// entries with one name the later one counts.
    pub fn from_entries(entries: Vec<(String, String)>) -> (claims: ClaimSet)
        ensures
            claims@ == entries_map(entries@),
    {
        let mut claims = ClaimSet::new();
        let ghost all = entries@;
        for entry in it: entries.into_iter()
            invariant
                it.seq() == all,
                claims@ == entries_map(all.take(it.index())),
        {
            claims.insert(entry.0, entry.1);
            proof {
                let i = it.index();
                assert(all.take(i + 1).drop_last() =~= all.take(i));
            }
        }
        proof {
            assert(all.take(all.len() as int) =~= all);
        }
        claims
    }

    /// Where the claim called `name` stands, if it is there.
    fn position(&self, name: &str) -> (at: Option<usize>)
        ensures
            match at {
                Some(i) => i < self.entries@.len() && self.entries@[i as int].0@ == name@,
                None => forall|i: int| 0 <= i < self.entries@.len() ==> self.entries@[i].0@ != name@,
            },
    {
        let mut i: usize = 0;
        while i < self.entries.len()
            invariant
                i <= self.entries@.len(),
                forall|j: int| 0 <= j < i ==> self.entries@[j].0@ != name@,
            decreases self.entries@.len() - i,
        {
            if *self.entries[i].0.as_str() == *name {
                return Some(i);
            }
            i = i + 1;
        }
        None
    }

    /// Whether there is a claim called `name`.
    pub fn contains(&self, name: &str) -> (found: bool)
        ensures
            found == self@.contains_key(name@),
    {
        let at = self.position(name);
        proof {
            use_type_invariant(self);
            match at {
                Some(i) => lemma_present(self.entries@, i as int),
                None => lemma_absent(self.entries@, name@),
            }
        }
        at.is_some()
    }

    /// The value of the claim called `name`, as its JSON text, if there is
    /// one.
    pub fn get(&self, name: &str) -> (value: Option<&str>)
        ensures
            match value {
                Some(json) => self@.contains_key(name@) && json@ == self@[name@],
                None => !self@.contains_key(name@),
            },
    {
        let at = self.position(name);
        proof {
            use_type_invariant(self);
            match at {
                Some(i) => lemma_present(self.entries@, i as int),
                None => lemma_absent(self.entries@, name@),
            }
        }
        match at {
            Some(i) => Some(self.entries[i].1.as_str()),
            None => None,
        }
    }

    /// Writes `value`, the JSON text of a value, under `name`, in place of
    /// what stood there. The text is taken as it is: whether it is JSON
    /// is found out when a token is issued.
    pub fn insert(&mut self, name: String, value: String)
        ensures
            final(self)@ == old(self)@.insert(name@, value@),
    {
        let at = self.position(name.as_str());
        proof {
            use_type_invariant(&*self);
        }
        let mut entries: Vec<(String, String)> = Vec::new();
        core::mem::swap(&mut self.entries, &mut entries);
        match at {
            Some(i) => {
                proof {
                    lemma_replace(entries@, i as int, name, value);
                }
                entries.set(i, (name, value));
            },
            None => {
                entries.push((name, value));
                assert(entries@.drop_last() =~= old(self).entries@);
            },
        }
        core::mem::swap(&mut self.entries, &mut entries);
    }

    /// Writes `text` under `name` as a JSON string, in place of what stood
    /// there.
    pub fn set_text(&mut self, name: &str, text: &str)
        ensures
            final(self)@ == old(self)@.insert(name@, quoted(text@)),
    {
        self.insert(name.to_owned(), quote(text));
    }

    /// Writes `number` under `name` as a JSON number, in place of what
    /// stood there.
    pub fn set_number(&mut self, name: &str, number: u64)
        ensures
            final(self)@ == old(self)@.insert(name@, decimal_text(number as nat)),
    {
        self.insert(name.to_owned(), write_decimal(number));
    }

    /// The number under `name`: the one whose digits are the value of the
    /// claim, where there is such a claim and such a number.
    pub fn number(&self, name: &str) -> (number: Option<u64>)
        ensures
            match number {
                Some(n) => self@.contains_key(name@) && self@[name@] == decimal_text(n as nat),
                None => !self@.contains_key(name@) || forall|n: u64|
                    self@[name@] != decimal_text(n as nat),
            },
    {
        match self.get(name) {
            Some(json) => read_decimal(json),
            None => None,
        }
    }

    /// Takes the claim called `name` out, if there is one.
    pub fn remove(&mut self, name: &str)
        ensures
            final(self)@ == old(self)@.remove(name@),
    {
        let at = self.position(name);
        proof {
            use_type_invariant(&*self);
        }
        match at {
            Some(i) => {
                let mut entries: Vec<(String, String)> = Vec::new();
                core::mem::swap(&mut self.entries, &mut entries);
                proof {
                    lemma_remove(entries@, i as int);
                }
                entries.remove(i);
                core::mem::swap(&mut self.entries, &mut entries);
            },
            None => {
                proof {
                    lemma_absent(self.entries@, name@);
                    assert(self@ =~= self@.remove(name@));
                }
            },
        }
    }
}

} // verus!
