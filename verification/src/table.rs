//! Sequences of keyed entries read as finite maps.
//!
//! The registry stores its entries in vectors. This module says which map a
//! pair of sequences (keys and the values filed under them) stands for, and
//! proves how appending, replacing and removing an entry changes that map
//! while no key occurs twice.

use vstd::prelude::*;

verus! {

/// The map that files `vals[i]` under `keys[i]`.
pub open spec fn table<T>(keys: Seq<Seq<char>>, vals: Seq<T>) -> Map<Seq<char>, T> {
    Map::new(|k: Seq<char>| keys.contains(k), |k: Seq<char>| vals[keys.index_of(k)])
}

/// Without repeated keys, a key is found at the one place where it stands.
pub proof fn lemma_index_of_unique(keys: Seq<Seq<char>>, i: int)
    requires
        keys.no_duplicates(),
        0 <= i < keys.len(),
    ensures
        keys.contains(keys[i]),
        keys.index_of(keys[i]) == i,
{
    let found = keys.index_of(keys[i]);
    assert(keys[found] == keys[i]);
}

/// Each entry of a table without repeated keys is filed under its key.
pub proof fn lemma_table_entry<T>(keys: Seq<Seq<char>>, vals: Seq<T>, i: int)
    requires
        keys.len() == vals.len(),
        keys.no_duplicates(),
        0 <= i < keys.len(),
    ensures
        table(keys, vals).contains_key(keys[i]),
        table(keys, vals)[keys[i]] == vals[i],
{
    lemma_index_of_unique(keys, i);
}

/// A table without repeated keys has as many entries as keys.
pub proof fn lemma_table_len<T>(keys: Seq<Seq<char>>, vals: Seq<T>)
    requires
        keys.no_duplicates(),
    ensures
        table(keys, vals).dom().finite(),
        table(keys, vals).dom().len() == keys.len(),
{
    assert(table(keys, vals).dom() =~= keys.to_set());
    vstd::seq_lib::seq_to_set_is_finite(keys);
    keys.unique_seq_to_set();
}

/// Appending an entry under a fresh key inserts it.
pub proof fn lemma_table_push<T>(keys: Seq<Seq<char>>, vals: Seq<T>, k: Seq<char>, v: T)
    requires
        keys.len() == vals.len(),
        keys.no_duplicates(),
        !keys.contains(k),
    ensures
        keys.push(k).no_duplicates(),
        table(keys.push(k), vals.push(v)) == table(keys, vals).insert(k, v),
{
    let longer = keys.push(k);
    assert(longer.no_duplicates());
    assert forall|x: Seq<char>| longer.contains(x) <==> (x == k || keys.contains(x)) by {
        if keys.contains(x) {
            assert(longer[keys.index_of(x)] == x);
        }
        if x == k {
            assert(longer[keys.len() as int] == k);
        }
    }
    assert forall|x: Seq<char>| #[trigger] longer.contains(x) implies table(longer, vals.push(v))[x]
        == table(keys, vals).insert(k, v)[x] by {
        let at = if x == k { keys.len() as int } else { keys.index_of(x) };
        lemma_index_of_unique(longer, at);
    }
    assert(table(longer, vals.push(v)) =~= table(keys, vals).insert(k, v));
}

/// Replacing the value of an entry inserts the new value under its key.
pub proof fn lemma_table_update<T>(keys: Seq<Seq<char>>, vals: Seq<T>, i: int, v: T)
    requires
        keys.len() == vals.len(),
        keys.no_duplicates(),
        0 <= i < keys.len(),
    ensures
        table(keys, vals.update(i, v)) == table(keys, vals).insert(keys[i], v),
{
    lemma_index_of_unique(keys, i);
    assert(table(keys, vals.update(i, v)) =~= table(keys, vals).insert(keys[i], v));
}

/// Taking an entry out removes its key.
pub proof fn lemma_table_remove<T>(keys: Seq<Seq<char>>, vals: Seq<T>, i: int)
    requires
        keys.len() == vals.len(),
        keys.no_duplicates(),
        0 <= i < keys.len(),
    ensures
        keys.remove(i).no_duplicates(),
        table(keys.remove(i), vals.remove(i)) == table(keys, vals).remove(keys[i]),
{
    let shorter = keys.remove(i);
    assert(shorter.no_duplicates());
    assert forall|x: Seq<char>| shorter.contains(x) <==> (keys.contains(x) && x != keys[i]) by {
        if keys.contains(x) && x != keys[i] {
            let j = keys.index_of(x);
            assert(shorter[if j < i { j } else { j - 1 }] == x);
        }
    }
    assert forall|x: Seq<char>| #[trigger] shorter.contains(x) implies table(shorter, vals.remove(i))[x]
        == table(keys, vals)[x] by {
        let a = shorter.index_of(x);
        lemma_index_of_unique(keys, if a < i { a } else { a + 1 });
    }
    assert(table(shorter, vals.remove(i)) =~= table(keys, vals).remove(keys[i]));
}

} // verus!
