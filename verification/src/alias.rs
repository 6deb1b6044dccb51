//! The alias table: a read-only mapping from short names to destination URLs,
//! loaded from a JSON object of string-to-string pairs.

use vstd::prelude::*;

use crate::errors::ResolveError;

verus! {

/// What parsing a given alias-file text yields: `None` when the text is not a
/// JSON object of string-to-string pairs, otherwise the table's entries as
/// (name, URL) pairs in the order the parser hands them out. The result
/// depends on the text alone.
pub uninterp spec fn parsed_aliases(text: Seq<char>) -> Option<Seq<(Seq<char>, Seq<char>)>>;

/// The JSON parser's error type, carried through to be mapped to the
/// library's own error.
#[verifier::external_type_specification]
#[verifier::external_body]
pub struct ExSerdeJsonError(serde_json::Error);

/// Relies on serde_json::from_str into a map of strings: it parses a JSON
/// object of string-to-string pairs and fails on any other input; the outcome
/// depends on the text alone.
#[verifier::external_body]
fn parse_alias_entries(text: &str) -> (r: Result<Vec<(String, String)>, serde_json::Error>)
    ensures
        match r {
            Ok(v) => parsed_aliases(text@) == Some(v.deep_view()),
            Err(_) => parsed_aliases(text@) is None,
        },
{
    serde_json::from_str::<std::collections::BTreeMap<String, String>>(text)
        .map(|m| m.into_iter().collect())
}

/// The URL stored under `name`, taking the first entry whose name matches
/// exactly (the parser never yields two entries with the same name).
pub open spec fn spec_lookup(entries: Seq<(Seq<char>, Seq<char>)>, name: Seq<char>) -> Option<
    Seq<char>,
>
    decreases entries.len(),
{
    if entries.len() == 0 {
        None
    } else if entries[0].0 == name {
        Some(entries[0].1)
    } else {
        spec_lookup(entries.drop_first(), name)
    }
}

/// A read-only table of (alias, URL) entries. Lookup is exact-match and
/// case-sensitive; no templating is ever applied to the stored URLs.
pub struct AliasTable {
    entries: Vec<(String, String)>,
}

impl View for AliasTable {
    type V = Seq<(Seq<char>, Seq<char>)>;

    closed spec fn view(&self) -> Seq<(Seq<char>, Seq<char>)> {
        self.entries.deep_view()
    }
}

impl AliasTable {
    /// Wrap a list of (alias, URL) pairs as a table.
    pub fn new(entries: Vec<(String, String)>) -> (r: AliasTable)
        ensures
            r@ == entries.deep_view(),
    {
        AliasTable { entries }
    }

    /// How many entries the table holds.
    pub fn len(&self) -> (r: usize)
        ensures
            r == self@.len(),
    {
        self.entries.len()
    }

    /// The table's entries, verbatim and in order.
    pub fn entries(&self) -> (r: &Vec<(String, String)>)
        ensures
            r.deep_view() == self@,
    {
        &self.entries
    }

    /// Look `name` up: exactly the stored URL when an entry matches
    /// character for character, and nothing otherwise.
    pub fn get(&self, name: &String) -> (r: Option<&String>)
        ensures
            match r {
                Some(u) => spec_lookup(self@, name@) == Some(u@),
                None => spec_lookup(self@, name@) is None,
            },
    {
        let mut i: usize = 0;
        assert(self@.skip(0) =~= self@);
        while i < self.entries.len()
            invariant
                i <= self.entries.len(),
                spec_lookup(self@, name@) == spec_lookup(self@.skip(i as int), name@),
            decreases self.entries.len() - i,
        {
            if self.entries[i].0 == *name {
                assert(self@.skip(i as int)[0] == self@[i as int]);
                return Some(&self.entries[i].1);
            }
            assert(self@.skip(i as int)[0] == self@[i as int]);
            assert(self@.skip(i as int).drop_first() =~= self@.skip(i + 1));
            i = i + 1;
        }
        None
    }
}

/// Parse an alias-file text into a table, reporting a malformed file as the
/// library's own error.
pub fn parse_alias_table(text: &str) -> (r: Result<AliasTable, ResolveError>)
    ensures
        match r {
            Ok(t) => parsed_aliases(text@) == Some(t@),
            Err(e) => parsed_aliases(text@) is None && e == ResolveError::AliasFileMalformed,
        },
{
    match parse_alias_entries(text) {
        Ok(v) => Ok(AliasTable::new(v)),
        Err(_) => Err(ResolveError::AliasFileMalformed),
    }
}

/// Lookup is exact-match and case-sensitive: a URL is returned exactly when
/// some entry's name equals the query character for character, and then it
/// is the first such entry's URL.
pub proof fn lemma_lookup_exact(entries: Seq<(Seq<char>, Seq<char>)>, name: Seq<char>)
    ensures
        spec_lookup(entries, name) is Some <==> exists|i: int|
            0 <= i < entries.len() && entries[i].0 == name,
    decreases entries.len(),
{
    if entries.len() == 0 {
    } else if entries[0].0 == name {
        assert(entries[0].0 == name);
    } else {
        lemma_lookup_exact(entries.drop_first(), name);
        if spec_lookup(entries, name) is Some {
            let j = choose|j: int|
                0 <= j < entries.drop_first().len() && entries.drop_first()[j].0 == name;
            assert(entries[j + 1].0 == name);
        }
        if exists|i: int| 0 <= i < entries.len() && entries[i].0 == name {
            let i = choose|i: int| 0 <= i < entries.len() && entries[i].0 == name;
            assert(entries.drop_first()[i - 1].0 == name);
        }
    }
}

} // verus!
