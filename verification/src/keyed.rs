//! Association lists kept in the order of their string keys, each key once: the
//! model of a `BTreeMap` keyed by strings.
use vstd::prelude::*;

use crate::text::{
    chars_lt, chars_of, compare_chars, lemma_chars_lt_irreflexive, lemma_chars_lt_total,
    lemma_chars_lt_transitive, Precedence,
};

verus! {

broadcast use vstd::seq::group_seq_axioms;

/// The keys come in strictly increasing order.
pub open spec fn keys_sorted<V>(es: Seq<(Seq<char>, V)>) -> bool {
    forall|i: int, j: int| 0 <= i < j < es.len() ==> chars_lt(#[trigger] es[i].0, #[trigger] es[j].0)
}

pub open spec fn has_key<V>(es: Seq<(Seq<char>, V)>, k: Seq<char>) -> bool {
    exists|i: int| 0 <= i < es.len() && #[trigger] es[i].0 == k
}

/// A place of `k` among the entries.
pub open spec fn key_index<V>(es: Seq<(Seq<char>, V)>, k: Seq<char>) -> int {
    choose|i: int| 0 <= i < es.len() && #[trigger] es[i].0 == k
}

/// The value of each key.
pub open spec fn keyed_map<V>(es: Seq<(Seq<char>, V)>) -> Map<Seq<char>, V> {
    Map::new(|k: Seq<char>| has_key(es, k), |k: Seq<char>| es[key_index(es, k)].1)
}

/// The keys, in order.
pub open spec fn keys_of<V>(es: Seq<(Seq<char>, V)>) -> Seq<Seq<char>> {
    es.map_values(|e: (Seq<char>, V)| e.0)
}

pub proof fn lemma_sorted_distinct<V>(es: Seq<(Seq<char>, V)>, i: int, j: int)
    requires
        keys_sorted(es),
        0 <= i < es.len(),
        0 <= j < es.len(),
        i != j,
    ensures
        es[i].0 != es[j].0,
{
    if i < j {
        lemma_chars_lt_irreflexive(es[i].0);
    } else {
        lemma_chars_lt_irreflexive(es[j].0);
    }
}

/// The map gives each entry's value to its key.
pub proof fn lemma_keyed_at<V>(es: Seq<(Seq<char>, V)>, j: int)
    requires
        keys_sorted(es),
        0 <= j < es.len(),
    ensures
        keyed_map(es).contains_key(es[j].0),
        keyed_map(es)[es[j].0] == es[j].1,
        key_index(es, es[j].0) == j,
{
    let p = es[j].0;
    assert(has_key(es, p));
    let i = key_index(es, p);
    if i != j {
        lemma_sorted_distinct(es, i, j);
    }
}

/// Replacing the value of a key that is there.
pub proof fn lemma_keyed_update<V>(es: Seq<(Seq<char>, V)>, pos: int, v: V)
    requires
        keys_sorted(es),
        0 <= pos < es.len(),
    ensures
        keys_sorted(es.update(pos, (es[pos].0, v))),
        keyed_map(es.update(pos, (es[pos].0, v))) == keyed_map(es).insert(es[pos].0, v),
        keys_of(es.update(pos, (es[pos].0, v))) == keys_of(es),
{
    let k = es[pos].0;
    let es2 = es.update(pos, (k, v));
    assert(keys_sorted(es2)) by {
        assert forall|i: int, j: int| 0 <= i < j < es2.len() implies chars_lt(
            #[trigger] es2[i].0,
            #[trigger] es2[j].0,
        ) by {
            assert(es2[i].0 == es[i].0);
            assert(es2[j].0 == es[j].0);
        }
    }
    assert forall|p: Seq<char>| #[trigger]
        keyed_map(es2).contains_key(p) == keyed_map(es).insert(k, v).contains_key(p) by {
        if has_key(es2, p) {
            let i = choose|i: int| 0 <= i < es2.len() && #[trigger] es2[i].0 == p;
            assert(es[i].0 == p);
        }
        if has_key(es, p) {
            let i = choose|i: int| 0 <= i < es.len() && #[trigger] es[i].0 == p;
            assert(es2[i].0 == p);
        }
        if p == k {
            assert(es2[pos].0 == p);
        }
    }
    assert forall|p: Seq<char>| #[trigger] keyed_map(es2).contains_key(p) implies keyed_map(
        es2,
    )[p] == keyed_map(es).insert(k, v)[p] by {
        let i = key_index(es2, p);
        lemma_keyed_at(es2, i);
        if i != pos {
            lemma_keyed_at(es, i);
            lemma_sorted_distinct(es, i, pos);
        }
    }
    assert(keyed_map(es2) =~= keyed_map(es).insert(k, v));
    assert(keys_of(es2) =~= keys_of(es));
}

/// Inserting a new key at its place in the order.
pub proof fn lemma_keyed_insert<V>(es: Seq<(Seq<char>, V)>, pos: int, k: Seq<char>, v: V)
    requires
        keys_sorted(es),
        0 <= pos <= es.len(),
        forall|j: int| 0 <= j < pos ==> chars_lt(#[trigger] es[j].0, k),
        forall|j: int| pos <= j < es.len() ==> chars_lt(k, #[trigger] es[j].0),
    ensures
        keys_sorted(es.insert(pos, (k, v))),
        keyed_map(es.insert(pos, (k, v))) == keyed_map(es).insert(k, v),
        !has_key(es, k),
{
    let es2 = es.insert(pos, (k, v));
    assert(keys_sorted(es2)) by {
        assert forall|i: int, j: int| 0 <= i < j < es2.len() implies chars_lt(
            #[trigger] es2[i].0,
            #[trigger] es2[j].0,
        ) by {
            if j < pos {
                assert(es2[i] == es[i] && es2[j] == es[j]);
            } else if j == pos {
                assert(es2[i] == es[i]);
            } else if i < pos {
                assert(es2[i] == es[i] && es2[j] == es[j - 1]);
                lemma_chars_lt_transitive(es[i].0, k, es[j - 1].0);
            } else if i == pos {
                assert(es2[j] == es[j - 1]);
            } else {
                assert(es2[i] == es[i - 1] && es2[j] == es[j - 1]);
            }
        }
    }
    assert forall|j: int| 0 <= j < es.len() implies es[j].0 != k by {
        lemma_chars_lt_irreflexive(k);
    }
    assert forall|p: Seq<char>| #[trigger]
        keyed_map(es2).contains_key(p) == keyed_map(es).insert(k, v).contains_key(p) by {
        if has_key(es2, p) {
            let i = choose|i: int| 0 <= i < es2.len() && #[trigger] es2[i].0 == p;
            if i < pos {
                assert(es[i].0 == p);
            } else if i > pos {
                assert(es[i - 1].0 == p);
            }
        }
        if has_key(es, p) {
            let i = choose|i: int| 0 <= i < es.len() && #[trigger] es[i].0 == p;
            if i < pos {
                assert(es2[i].0 == p);
            } else {
                assert(es2[i + 1].0 == p);
            }
        }
        if p == k {
            assert(es2[pos].0 == p);
        }
    }
    assert forall|p: Seq<char>| #[trigger] keyed_map(es2).contains_key(p) implies keyed_map(
        es2,
    )[p] == keyed_map(es).insert(k, v)[p] by {
        let i = key_index(es2, p);
        lemma_keyed_at(es2, i);
        if i < pos {
            lemma_keyed_at(es, i);
        } else if i > pos {
            lemma_keyed_at(es, i - 1);
        }
    }
    assert(keyed_map(es2) =~= keyed_map(es).insert(k, v));
}

/// Where `key` goes: the entries before it come before the key, and the one there,
/// if any, does not.
pub fn key_position<V>(es: &Vec<(String, V)>, key: &[char]) -> (r: usize)
    ensures
        r <= es@.len(),
        forall|j: int| 0 <= j < r ==> chars_lt(#[trigger] es@[j].0@, key@),
        r < es@.len() ==> !chars_lt(es@[r as int].0@, key@),
{
    let mut pos: usize = 0;
    while pos < es.len()
        invariant
            pos <= es@.len(),
            forall|j: int| 0 <= j < pos ==> chars_lt(#[trigger] es@[j].0@, key@),
        ensures
            pos <= es@.len(),
            forall|j: int| 0 <= j < pos ==> chars_lt(#[trigger] es@[j].0@, key@),
            pos < es@.len() ==> !chars_lt(es@[pos as int].0@, key@),
        decreases es@.len() - pos,
    {
        let here = chars_of(es[pos].0.as_str());
        let c = compare_chars(here.as_slice(), key);
        if c != Precedence::Before {
            break;
        }
        pos = pos + 1;
    }
    pos
}

/// After `key_position` stopped before an entry with another key, the key goes
/// before all the later entries.
pub proof fn lemma_position_after<V>(es: Seq<(Seq<char>, V)>, pos: int, k: Seq<char>)
    requires
        keys_sorted(es),
        0 <= pos <= es.len(),
        pos < es.len() ==> !chars_lt(es[pos].0, k) && es[pos].0 != k,
    ensures
        forall|j: int| pos <= j < es.len() ==> chars_lt(k, #[trigger] es[j].0),
{
    assert forall|j: int| pos <= j < es.len() implies chars_lt(k, #[trigger] es[j].0) by {
        lemma_chars_lt_total(es[pos].0, k);
        if j > pos {
            lemma_chars_lt_transitive(k, es[pos].0, es[j].0);
        }
    }
}

} // verus!
