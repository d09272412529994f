//! Lists of (name, value) entries used where a configuration maps names to
//! values. Lookups go by the characters of the name and find the first
//! entry with that name; inserting replaces the value of an existing name
//! and otherwise appends, so names stay distinct.

use vstd::prelude::*;

verus! {

/// Whether an entry named `key` is present.
pub open spec fn has_key<V>(entries: Seq<(String, V)>, key: Seq<char>) -> bool {
    exists|i: int| 0 <= i < entries.len() && entries[i].0@ == key
}

/// Whether `i` is the position of the first entry named `key`.
pub open spec fn first_key_at<V>(entries: Seq<(String, V)>, key: Seq<char>, i: int) -> bool {
    &&& 0 <= i < entries.len()
    &&& entries[i].0@ == key
    &&& forall|j: int| 0 <= j < i ==> entries[j].0@ != key
}

/// The names of the entries are pairwise distinct.
pub open spec fn distinct_keys<V>(entries: Seq<(String, V)>) -> bool {
    forall|i: int, j: int| 0 <= i < j < entries.len() ==> entries[i].0@ != entries[j].0@
}

/// The entries, with names and values taken as characters.
pub open spec fn text_entries(entries: Seq<(String, String)>) -> Seq<(Seq<char>, Seq<char>)> {
    entries.map_values(|e: (String, String)| (e.0@, e.1@))
}

/// The names of the entries.
pub open spec fn entry_names<V>(entries: Seq<(String, V)>) -> Seq<Seq<char>> {
    entries.map_values(|e: (String, V)| e.0@)
}

/// Position of the first entry named `key`, if any.
pub fn find_key<V>(entries: &Vec<(String, V)>, key: &str) -> (r: Option<usize>)
    ensures
        r matches Some(i) ==> first_key_at(entries@, key@, i as int),
        r is None ==> !has_key(entries@, key@),
{
    let k = key.to_owned();
    let mut i: usize = 0;
    while i < entries.len()
        invariant
            k@ == key@,
            i <= entries@.len(),
            forall|j: int| 0 <= j < i ==> entries@[j].0@ != key@,
        decreases entries.len() - i,
    {
        if entries[i].0 == k {
            return Some(i);
        }
        i = i + 1;
    }
    false_to_none(entries, key)
}

fn false_to_none<V>(entries: &Vec<(String, V)>, key: &str) -> (r: Option<usize>)
    requires
        forall|j: int| 0 <= j < entries@.len() ==> entries@[j].0@ != key@,
    ensures
        r is None,
        !has_key(entries@, key@),
{
    None
}

/// Whether an entry named `key` is present.
pub fn contains_key<V>(entries: &Vec<(String, V)>, key: &str) -> (r: bool)
    ensures
        r == has_key(entries@, key@),
{
    find_key(entries, key).is_some()
}

/// The value of the first entry named `key`, if any.
pub open spec fn key_value<V>(entries: Seq<(String, V)>, key: Seq<char>) -> Option<V> {
    if exists|i: int| first_key_at(entries, key, i) {
        Some(entries[choose|i: int| first_key_at(entries, key, i)].1)
    } else {
        None
    }
}

/// The value of the first entry named `key`, if any.
pub fn get_value<'a, V>(entries: &'a Vec<(String, V)>, key: &str) -> (r: Option<&'a V>)
    ensures
        match r {
            Some(v) => key_value(entries@, key@) == Some(*v),
            None => key_value(entries@, key@) is None,
        },
{
    match find_key(entries, key) {
        Some(i) => {
            proof {
                let j = choose|j: int| first_key_at(entries@, key@, j);
                lemma_first_key_unique(entries@, key@, i as int, j);
            }
            Some(&entries[i].1)
        },
        None => None,
    }
}

/// The value of `key` in a list of text entries, by characters.
pub open spec fn text_value(entries: Seq<(String, String)>, key: Seq<char>) -> Option<Seq<char>> {
    if has_key(entries, key) {
        Some(entries[choose|i: int| first_key_at(entries, key, i)].1@)
    } else {
        None
    }
}

/// The position of the first entry named `key` is unique.
pub proof fn lemma_first_key_unique<V>(entries: Seq<(String, V)>, key: Seq<char>, i: int, j: int)
    requires
        first_key_at(entries, key, i),
        first_key_at(entries, key, j),
    ensures
        i == j,
{
    if i < j {
        assert(entries[i].0@ != key);
    } else if j < i {
        assert(entries[j].0@ != key);
    }
}

/// The result of inserting `(key, value)` into text entries: the value of
/// an existing name is replaced in place, otherwise the entry is appended.
pub open spec fn text_insert(entries: Seq<(Seq<char>, Seq<char>)>, key: Seq<char>, value: Seq<char>) -> Seq<(Seq<char>, Seq<char>)> {
    if exists|i: int| 0 <= i < entries.len() && entries[i].0 == key {
        let i = choose|i: int| 0 <= i < entries.len() && entries[i].0 == key
            && forall|j: int| 0 <= j < i ==> entries[j].0 != key;
        entries.update(i, (key, value))
    } else {
        entries.push((key, value))
    }
}

/// Inserting every entry of `more` in order.
pub open spec fn text_extend(entries: Seq<(Seq<char>, Seq<char>)>, more: Seq<(Seq<char>, Seq<char>)>) -> Seq<(Seq<char>, Seq<char>)>
    decreases more.len(),
{
    if more.len() == 0 {
        entries
    } else {
        text_insert(text_extend(entries, more.drop_last()), more.last().0, more.last().1)
    }
}

/// Inserts `(key, value)`, replacing the value of an existing name.
pub fn insert_text(entries: &mut Vec<(String, String)>, key: String, value: String)
    ensures
        text_entries(final(entries)@) == text_insert(text_entries(old(entries)@), key@, value@),
{
    let ghost before = text_entries(entries@);
    match find_key(entries, key.as_str()) {
        Some(i) => {
            proof {
                assert(before[i as int].0 == key@);
                let w = choose|w: int| 0 <= w < before.len() && before[w].0 == key@
                    && forall|j: int| 0 <= j < w ==> before[j].0 != key@;
                assert(forall|j: int| 0 <= j < i ==> before[j].0 != key@);
                if w < i as int {
                    assert(before[w].0 == key@);
                } else if w > i as int {
                    assert(before[i as int].0 != key@);
                }
                assert(w == i as int);
            }
            entries.set(i, (key, value));
            assert(text_entries(entries@) =~= before.update(i as int, (key@, value@)));
        },
        None => {
            proof {
                assert forall|j: int| 0 <= j < before.len() implies before[j].0 != key@ by {
                    assert(entries@[j].0@ != key@);
                }
            }
            entries.push((key, value));
            assert(text_entries(entries@) =~= before.push((key@, value@)));
        },
    }
}

/// Inserts every entry of `more`, in order.
pub fn extend_text(entries: &mut Vec<(String, String)>, more: &Vec<(String, String)>)
    ensures
        text_entries(final(entries)@) == text_extend(text_entries(old(entries)@), text_entries(more@)),
{
    let ghost start = text_entries(entries@);
    let mut i: usize = 0;
    while i < more.len()
        invariant
            i <= more@.len(),
            text_entries(entries@) == text_extend(start, text_entries(more@).subrange(0, i as int)),
        decreases more.len() - i,
    {
        let ghost prev = text_entries(more@).subrange(0, i as int);
        insert_text(entries, more[i].0.clone(), more[i].1.clone());
        proof {
            let next = text_entries(more@).subrange(0, i + 1);
            assert(next.drop_last() =~= prev);
            assert(next.last() == (more@[i as int].0@, more@[i as int].1@));
        }
        i = i + 1;
    }
    assert(text_entries(more@).subrange(0, more@.len() as int) =~= text_entries(more@));
}

/// Copies a list of text entries.
pub fn clone_text_entries(entries: &Vec<(String, String)>) -> (r: Vec<(String, String)>)
    ensures
        text_entries(r@) == text_entries(entries@),
{
    let mut r: Vec<(String, String)> = Vec::new();
    let mut i: usize = 0;
    while i < entries.len()
        invariant
            i <= entries@.len(),
            r@.len() == i,
            forall|k: int| 0 <= k < i ==> #[trigger] r@[k].0@ == entries@[k].0@ && r@[k].1@ == entries@[k].1@,
        decreases entries.len() - i,
    {
        r.push((entries[i].0.clone(), entries[i].1.clone()));
        i = i + 1;
    }
    assert(text_entries(r@) =~= text_entries(entries@));
    r
}

/// The value of the first pair named `key` among character pairs.
pub open spec fn lookup(entries: Seq<(Seq<char>, Seq<char>)>, key: Seq<char>) -> Option<Seq<char>> {
    if exists|i: int| 0 <= i < entries.len() && entries[i].0 == key {
        let i = choose|i: int| 0 <= i < entries.len() && entries[i].0 == key
            && forall|j: int| 0 <= j < i ==> entries[j].0 != key;
        Some(entries[i].1)
    } else {
        None
    }
}

/// Some pair is named `key`.
pub open spec fn names_key(entries: Seq<(Seq<char>, Seq<char>)>, key: Seq<char>) -> bool {
    exists|i: int| 0 <= i < entries.len() && entries[i].0 == key
}

/// When some pair is named `key`, a first one is.
pub proof fn lemma_first_pair(entries: Seq<(Seq<char>, Seq<char>)>, key: Seq<char>)
    requires
        names_key(entries, key),
    ensures
        exists|i: int| 0 <= i < entries.len() && entries[i].0 == key
            && forall|j: int| 0 <= j < i ==> entries[j].0 != key,
    decreases entries.len(),
{
    if entries[0].0 == key {
        assert(0 < entries.len() && entries[0].0 == key);
    } else {
        let rest = entries.drop_first();
        let w = choose|i: int| 0 <= i < entries.len() && entries[i].0 == key;
        assert(rest[w - 1] == entries[w]);
        lemma_first_pair(rest, key);
        let k = choose|i: int| 0 <= i < rest.len() && rest[i].0 == key
            && forall|j: int| 0 <= j < i ==> rest[j].0 != key;
        assert(entries[k + 1] == rest[k]);
        assert forall|j: int| 0 <= j < k + 1 implies entries[j].0 != key by {
            if j > 0 { assert(entries[j] == rest[j - 1]); }
        }
    }
}

/// After inserting `(key, value)`, `key` has `value` and every other name
/// keeps its value.
pub proof fn lemma_insert_lookup(entries: Seq<(Seq<char>, Seq<char>)>, key: Seq<char>, value: Seq<char>, other: Seq<char>)
    ensures
        lookup(text_insert(entries, key, value), key) == Some(value),
        other != key ==> lookup(text_insert(entries, key, value), other) == lookup(entries, other),
        names_key(text_insert(entries, key, value), other) == (other == key || names_key(entries, other)),
{
    let r = text_insert(entries, key, value);
    if names_key(entries, key) {
        lemma_first_pair(entries, key);
        let i = choose|i: int| 0 <= i < entries.len() && entries[i].0 == key
            && forall|j: int| 0 <= j < i ==> entries[j].0 != key;
        assert(r == entries.update(i, (key, value)));
        assert(r[i] == (key, value));
        let w = choose|w: int| 0 <= w < r.len() && r[w].0 == key
            && forall|j: int| 0 <= j < w ==> r[j].0 != key;
        if w < i { assert(r[w] == entries[w]); }
        if w > i { assert(r[i].0 == key); }
        if other != key {
            assert forall|j: int| 0 <= j < r.len() implies (r[j].0 == other <==> entries[j].0 == other) by {
                if j == i { } else { assert(r[j] == entries[j]); }
            }
            if names_key(entries, other) {
                lemma_first_pair(entries, other);
                let a = choose|a: int| 0 <= a < entries.len() && entries[a].0 == other
                    && forall|j: int| 0 <= j < a ==> entries[j].0 != other;
                assert(r[a].0 == other);
                let b = choose|b: int| 0 <= b < r.len() && r[b].0 == other
                    && forall|j: int| 0 <= j < b ==> r[j].0 != other;
                if a < b { assert(r[a].0 == other); }
                if b < a { assert(entries[b].0 == other); }
                assert(a != i);
                assert(r[a] == entries[a]);
            } else {
                assert(!names_key(r, other));
            }
        } else {
            assert(names_key(r, other));
        }
    } else {
        assert(r == entries.push((key, value)));
        let n = entries.len() as int;
        assert(r[n] == (key, value));
        assert(names_key(r, key));
        lemma_first_pair(r, key);
        let w = choose|w: int| 0 <= w < r.len() && r[w].0 == key
            && forall|j: int| 0 <= j < w ==> r[j].0 != key;
        if w < n { assert(r[w] == entries[w]); }
        if other != key {
            assert forall|j: int| 0 <= j < r.len() implies (r[j].0 == other <==> (j < n && entries[j].0 == other)) by {
                if j < n { assert(r[j] == entries[j]); }
            }
            if names_key(entries, other) {
                lemma_first_pair(entries, other);
                let a = choose|a: int| 0 <= a < entries.len() && entries[a].0 == other
                    && forall|j: int| 0 <= j < a ==> entries[j].0 != other;
                assert(r[a] == entries[a]);
                let b = choose|b: int| 0 <= b < r.len() && r[b].0 == other
                    && forall|j: int| 0 <= j < b ==> r[j].0 != other;
                if a < b { assert(r[a].0 == other); }
                if b < a { assert(r[b] == entries[b]); }
            }
        }
    }
}

/// After inserting every pair of `more` in order, a name of `more` has the
/// value of its last pair in `more`, and any other name keeps its value.
pub open spec fn last_lookup(more: Seq<(Seq<char>, Seq<char>)>, key: Seq<char>) -> Option<Seq<char>>
    decreases more.len(),
{
    if more.len() == 0 {
        None
    } else if more.last().0 == key {
        Some(more.last().1)
    } else {
        last_lookup(more.drop_last(), key)
    }
}

/// Inserting every pair of `more`: a name given in `more` gets the value
/// of its last pair there; any other name keeps its value.
pub proof fn lemma_extend_lookup(entries: Seq<(Seq<char>, Seq<char>)>, more: Seq<(Seq<char>, Seq<char>)>, key: Seq<char>)
    ensures
        lookup(text_extend(entries, more), key) == (match last_lookup(more, key) {
            Some(v) => Some(v),
            None => lookup(entries, key),
        }),
        names_key(text_extend(entries, more), key) == (names_key(entries, key) || last_lookup(more, key) is Some),
    decreases more.len(),
{
    if more.len() > 0 {
        lemma_extend_lookup(entries, more.drop_last(), key);
        lemma_insert_lookup(text_extend(entries, more.drop_last()), more.last().0, more.last().1, key);
    }
}

} // verus!
