//! Configuration, modifier and search-spec maps.
//!
//! A map is handed over as a slice of `(key, value)` pairs in which no key
//! occurs twice. Contracts speak of its deep view, a sequence of pairs of
//! character sequences.

use std::collections::HashMap;
use vstd::prelude::*;

verus! {

/// No key occurs twice among the entries.
pub open spec fn distinct_keys(entries: Seq<(Seq<char>, Seq<char>)>) -> bool {
    forall|i: int, j: int|
        0 <= i < j < entries.len() ==> (#[trigger] entries[i]).0 != (#[trigger] entries[j]).0
}

/// The value that the entries give to `key`, if any of them has that key.
pub open spec fn value_of(entries: Seq<(Seq<char>, Seq<char>)>, key: Seq<char>) -> Option<
    Seq<char>,
>
    decreases entries.len(),
{
    if entries.len() == 0 {
        None
    } else if entries[0].0 == key {
        Some(entries[0].1)
    } else {
        value_of(entries.drop_first(), key)
    }
}

/// Every entry's key is one of `keys`.
pub open spec fn all_allowed(keys: Seq<Seq<char>>, entries: Seq<(Seq<char>, Seq<char>)>) -> bool {
    forall|i: int| 0 <= i < entries.len() ==> keys.contains((#[trigger] entries[i]).0)
}

/// `key` is the key of an entry and not one of `keys`.
pub open spec fn unknown_key(
    keys: Seq<Seq<char>>,
    entries: Seq<(Seq<char>, Seq<char>)>,
    key: Seq<char>,
) -> bool {
    !keys.contains(key) && exists|i: int|
        0 <= i < entries.len() && (#[trigger] entries[i]).0 == key
}

/// The entries of an optional map: none where the map is absent.
pub open spec fn given(attrs: Option<&[(&str, &str)]>) -> Seq<(Seq<char>, Seq<char>)> {
    match attrs {
        Some(pairs) => pairs.deep_view(),
        None => Seq::empty(),
    }
}

/// The two sequences hold the same entries, in whatever order.
pub open spec fn same_entries(
    a: Seq<(Seq<char>, Seq<char>)>,
    b: Seq<(Seq<char>, Seq<char>)>,
) -> bool {
    forall|e: (Seq<char>, Seq<char>)| a.contains(e) <==> b.contains(e)
}

/// No key opens with one of the marks by which the parser is told to check a
/// value (`*` for a boolean, `+` for a non-empty text).
pub open spec fn plain_keys(keys: Seq<Seq<char>>) -> bool {
    forall|i: int|
        0 <= i < keys.len() ==> (#[trigger] keys[i]).len() == 0 || (keys[i][0] != '*' && keys[i][0]
            != '+')
}

/// `keyring_core::attributes::parse_attributes`, called with the pairs
/// gathered into the map it expects.
///
/// With keys that carry no mark, the parser walks the map and copies each
/// entry whose key is listed; at the first entry whose key is not listed it
/// gives up with `Invalid(key, "unknown key")`. The walk follows the map's
/// own order, so with several unlisted keys any one of them may be named.
/// An absent map parses to no entries.
#[verifier::external_body]
pub(crate) fn parse_attributes(keys: &[&str], attrs: Option<&[(&str, &str)]>) -> (r: Result<
    Vec<(String, String)>,
    (String, String),
>)
    requires
        plain_keys(keys.deep_view()),
        distinct_keys(given(attrs)),
    ensures
        match r {
            Ok(parsed) => all_allowed(keys.deep_view(), given(attrs)) && same_entries(
                parsed.deep_view(),
                given(attrs),
            ),
            Err(refused) => unknown_key(keys.deep_view(), given(attrs), refused.0@) && refused.1@
                == "unknown key"@,
        },
{
    let map: Option<HashMap<&str, &str>> = match attrs {
        Some(pairs) => Some(pairs.iter().copied().collect()),
        None => None,
    };
    match keyring_core::attributes::parse_attributes(keys, map.as_ref()) {
        Ok(parsed) => Ok(parsed.into_iter().collect()),
        Err(keyring_core::Error::Invalid(key, reason)) => Err((key, reason)),
        Err(other) => Err((String::new(), other.to_string())),
    }
}

/// `value_of` finds an entry with the key, or there is none.
pub proof fn lemma_value_of(entries: Seq<(Seq<char>, Seq<char>)>, key: Seq<char>)
    ensures
        match value_of(entries, key) {
            Some(v) => entries.contains((key, v)),
            None => forall|i: int| 0 <= i < entries.len() ==> (#[trigger] entries[i]).0 != key,
        },
    decreases entries.len(),
{
    if entries.len() == 0 {
    } else if entries[0].0 == key {
        assert(entries[0] == (key, entries[0].1));
    } else {
        let rest = entries.drop_first();
        lemma_value_of(rest, key);
        match value_of(rest, key) {
            Some(v) => {
                let i = choose|i: int| 0 <= i < rest.len() && rest[i] == (key, v);
                assert(entries[i + 1] == (key, v));
            },
            None => {
                assert forall|i: int| 0 <= i < entries.len() implies (#[trigger] entries[i]).0
                    != key by {
                    if i > 0 {
                        assert(rest[i - 1] == entries[i]);
                    }
                }
            },
        }
    }
}

/// Entries that are the same up to order give every key the same value,
/// where no key occurs twice.
pub proof fn lemma_same_entries_same_values(
    a: Seq<(Seq<char>, Seq<char>)>,
    b: Seq<(Seq<char>, Seq<char>)>,
    key: Seq<char>,
)
    requires
        same_entries(a, b),
        distinct_keys(b),
    ensures
        value_of(a, key) == value_of(b, key),
{
    lemma_value_of(a, key);
    lemma_value_of(b, key);
    match value_of(a, key) {
        Some(v) => {
            assert(b.contains((key, v)));
            let i = choose|i: int| 0 <= i < b.len() && b[i] == (key, v);
            match value_of(b, key) {
                Some(w) => {
                    let j = choose|j: int| 0 <= j < b.len() && b[j] == (key, w);
                    assert(b[i].0 == b[j].0);
                    assert(i == j);
                },
                None => {
                    assert(b[i].0 == key);
                },
            }
        },
        None => {
            match value_of(b, key) {
                Some(w) => {
                    assert(a.contains((key, w)));
                    let i = choose|i: int| 0 <= i < a.len() && a[i] == (key, w);
                    assert(a[i].0 == key);
                },
                None => {},
            }
        },
    }
}

/// Whether no key occurs twice among the entries, which is what makes a list
/// of pairs a map.
pub fn keys_are_distinct(entries: &[(&str, &str)]) -> (r: bool)
    ensures
        r == distinct_keys(entries.deep_view()),
{
    let ghost all = entries.deep_view();
    let mut j: usize = 0;
    while j < entries.len()
        invariant
            j <= entries.len(),
            all == entries.deep_view(),
            all.len() == entries.len(),
            forall|a: int, b: int|
                0 <= a < b < j ==> (#[trigger] all[a]).0 != (#[trigger] all[b]).0,
        decreases entries.len() - j,
    {
        let mut i: usize = 0;
        while i < j
            invariant
                i <= j,
                j < entries.len(),
                all == entries.deep_view(),
                all.len() == entries.len(),
                forall|a: int| 0 <= a < i ==> (#[trigger] all[a]).0 != all[j as int].0,
            decreases j - i,
        {
            assert(all[i as int].0 == entries[i as int].0@);
            assert(all[j as int].0 == entries[j as int].0@);
            if crate::text::str_eq(entries[i].0, entries[j].0) {
                return false;
            }
            i += 1;
        }
        j += 1;
    }
    true
}

/// The value that parsed entries give to `key`.
pub(crate) fn value<'a>(entries: &'a Vec<(String, String)>, key: &str) -> (r: Option<&'a String>)
    ensures
        match r {
            Some(v) => value_of(entries.deep_view(), key@) == Some(v@),
            None => value_of(entries.deep_view(), key@) is None,
        },
{
    let ghost all = entries.deep_view();
    let mut i: usize = 0;
    assert(all.skip(0) =~= all);
    while i < entries.len()
        invariant
            i <= entries.len(),
            all == entries.deep_view(),
            all.len() == entries.len(),
            value_of(all, key@) == value_of(all.skip(i as int), key@),
        decreases entries.len() - i,
    {
        let ghost rest = all.skip(i as int);
        assert(rest[0] == all[i as int]);
        assert(rest.drop_first() =~= all.skip(i + 1));
        assert(all[i as int].0 == entries[i as int].0@);
        assert(all[i as int].1 == entries[i as int].1@);
        if crate::text::str_eq(entries[i].0.as_str(), key) {
            return Some(&entries[i].1);
        }
        i += 1;
    }
    assert(all.skip(i as int).len() == 0);
    None
}

} // verus!
