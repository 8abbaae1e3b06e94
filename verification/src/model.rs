//! The mathematical model of a configuration document: an ordered list of
//! keyed nodes, and the operations on it that the contracts speak of.

use crate::error::ConfigError;
use vstd::prelude::*;

verus! {

/// The entries of a table, in table order: each a key and what it holds.
pub type Entries = Seq<(Seq<char>, Node)>;

/// What a key of a table holds.
pub enum Node {
    /// A placeholder: the key is reserved but nothing is stored under it.
    /// Reads pass over such an entry as if it were absent.
    Empty,
    /// A string leaf.
    Text(Seq<char>),
    /// A nested table.
    Table(Entries),
    /// Anything else: a number, a date, an array, an inline table.
    Other,
}

/// The least index at which `key` is stored in a keyed list, or `e.len()`
/// when it is stored nowhere.
pub open spec fn index_of<V>(e: Seq<(Seq<char>, V)>, key: Seq<char>) -> int
    decreases e.len(),
{
    if e.len() == 0 {
        0
    } else if e[0].0 == key {
        0
    } else {
        1 + index_of(e.drop_first(), key)
    }
}

/// What a keyed list holds under `key`: the value of the first pair with the
/// key, if there is one.
pub open spec fn first_of<V>(e: Seq<(Seq<char>, V)>, key: Seq<char>) -> Option<V> {
    if index_of(e, key) < e.len() {
        Some(e[index_of(e, key)].1)
    } else {
        None
    }
}

/// Whether some entry, placeholder or not, is stored under `key`.
pub open spec fn has_key(e: Entries, key: Seq<char>) -> bool {
    index_of(e, key) < e.len()
}

/// What a read of `key` finds: the node of the first entry stored under it,
/// unless there is none or it is a placeholder.
pub open spec fn lookup(e: Entries, key: Seq<char>) -> Option<Node> {
    if has_key(e, key) && !(e[index_of(e, key)].1 is Empty) {
        Some(e[index_of(e, key)].1)
    } else {
        None
    }
}

/// The string that a read of `key` finds. A key that holds anything else is a
/// type mismatch, and a key that a read does not find is missing.
pub open spec fn string_value(e: Entries, key: Seq<char>) -> Result<Seq<char>, ConfigError> {
    match lookup(e, key) {
        Some(Node::Text(s)) => Ok(s),
        Some(_) => Err(ConfigError::TypeMismatch),
        None => Err(ConfigError::KeyNotFound),
    }
}

/// The entries after `node` is stored under `key`: in the place of the entry
/// that had the key, or last when none had it.
pub open spec fn put(e: Entries, key: Seq<char>, node: Node) -> Entries {
    if has_key(e, key) {
        e.update(index_of(e, key), (key, node))
    } else {
        e.push((key, node))
    }
}

/// The entries after the entry under `key` is taken out; the others keep
/// their order.
pub open spec fn remove_key(e: Entries, key: Seq<char>) -> Entries {
    if has_key(e, key) {
        e.remove(index_of(e, key))
    } else {
        e
    }
}

/// The entries that reads and enumerations see: all but the placeholders, in
/// table order.
pub open spec fn visible(e: Entries) -> Entries
    decreases e.len(),
{
    if e.len() == 0 {
        e
    } else if e.last().1 is Empty {
        visible(e.drop_last())
    } else {
        visible(e.drop_last()).push(e.last())
    }
}

/// The keys of the given entries, in order.
pub open spec fn keys_of(e: Entries) -> Seq<Seq<char>> {
    Seq::new(e.len(), |i: int| e[i].0)
}

/// The keys that an enumeration of the table yields, in table order.
pub open spec fn visible_keys(e: Entries) -> Seq<Seq<char>> {
    keys_of(visible(e))
}

/// Whether no two entries share a key.
pub open spec fn distinct_keys(e: Entries) -> bool {
    forall|i: int, j: int| 0 <= i < j < e.len() ==> (#[trigger] e[i]).0 != (#[trigger] e[j]).0
}

/// `index_of` is in range, names an entry with the key when it is below the
/// length, and no earlier entry has the key.
pub proof fn lemma_index_of<V>(e: Seq<(Seq<char>, V)>, key: Seq<char>)
    ensures
        0 <= index_of(e, key) <= e.len(),
        index_of(e, key) < e.len() ==> e[index_of(e, key)].0 == key,
        forall|j: int| 0 <= j < index_of(e, key) ==> (#[trigger] e[j]).0 != key,
    decreases e.len(),
{
    if e.len() != 0 && e[0].0 != key {
        let rest = e.drop_first();
        lemma_index_of(rest, key);
        assert forall|j: int| 0 <= j < index_of(e, key) implies (#[trigger] e[j]).0 != key by {
            if j > 0 {
                assert(e[j] == rest[j - 1]);
            }
        }
        if index_of(e, key) < e.len() {
            assert(e[index_of(e, key)] == rest[index_of(rest, key)]);
        }
    }
}

/// An index that has the key, with no earlier entry having it, is `index_of`.
pub proof fn lemma_index_of_is<V>(e: Seq<(Seq<char>, V)>, key: Seq<char>, i: int)
    requires
        0 <= i <= e.len(),
        forall|j: int| 0 <= j < i ==> (#[trigger] e[j]).0 != key,
        i < e.len() ==> e[i].0 == key,
    ensures
        index_of(e, key) == i,
{
    lemma_index_of(e, key);
}

/// A read after a write of the same key finds what was written.
pub proof fn lemma_lookup_put_same(e: Entries, key: Seq<char>, node: Node)
    ensures
        has_key(put(e, key, node), key),
        put(e, key, node)[index_of(put(e, key, node), key)] == (key, node),
        index_of(put(e, key, node), key) == index_of(e, key),
        lookup(put(e, key, node), key) == (if node is Empty {
            None
        } else {
            Some(node)
        }),
{
    lemma_index_of(e, key);
    lemma_index_of_is(put(e, key, node), key, index_of(e, key));
}

/// A write leaves what is stored under every other key where it was.
pub proof fn lemma_lookup_put_other(e: Entries, key: Seq<char>, node: Node, other: Seq<char>)
    requires
        other != key,
    ensures
        has_key(put(e, key, node), other) == has_key(e, other),
        index_of(put(e, key, node), other) == (if has_key(e, other) {
            index_of(e, other)
        } else {
            put(e, key, node).len() as int
        }),
        lookup(put(e, key, node), other) == lookup(e, other),
{
    lemma_index_of(e, key);
    lemma_index_of(e, other);
    let after = put(e, key, node);
    if has_key(e, other) {
        lemma_index_of_is(after, other, index_of(e, other));
    } else {
        lemma_index_of_is(after, other, after.len() as int);
    }
}

/// The visible entries of a concatenation are those of its parts, in order.
pub proof fn lemma_visible_concat(a: Entries, b: Entries)
    ensures
        visible(a + b) == visible(a) + visible(b),
    decreases b.len(),
{
    if b.len() == 0 {
        assert(a + b == a);
        assert(visible(a) + visible(b) == visible(a));
    } else {
        assert((a + b).drop_last() == a + b.drop_last());
        assert((a + b).last() == b.last());
        lemma_visible_concat(a, b.drop_last());
        if !(b.last().1 is Empty) {
            assert(visible(a + b) == (visible(a) + visible(b.drop_last())).push(b.last()));
            assert((visible(a) + visible(b.drop_last())).push(b.last()) == visible(a) + visible(
                b.drop_last(),
            ).push(b.last()));
        }
    }
}

/// The visible entries of a single entry: itself, or nothing for a
/// placeholder.
pub proof fn lemma_visible_one(p: (Seq<char>, Node))
    ensures
        visible(seq![p]) == (if p.1 is Empty {
            Seq::<(Seq<char>, Node)>::empty()
        } else {
            seq![p]
        }),
{
    let s = seq![p];
    assert(s.drop_last() == Seq::<(Seq<char>, Node)>::empty());
    assert(visible(s.drop_last()) == Seq::<(Seq<char>, Node)>::empty());
    assert(s.last() == p);
    if !(p.1 is Empty) {
        assert(Seq::<(Seq<char>, Node)>::empty().push(p) == seq![p]);
    }
}

/// Every visible entry is an entry, none is a placeholder, and every entry
/// that is no placeholder is visible.
pub proof fn lemma_visible_members(e: Entries)
    ensures
        visible(e).len() <= e.len(),
        forall|i: int|
            0 <= i < visible(e).len() ==> !((#[trigger] visible(e)[i]).1 is Empty) && e.contains(
                visible(e)[i],
            ),
        forall|j: int|
            0 <= j < e.len() && !((#[trigger] e[j]).1 is Empty) ==> visible(e).contains(e[j]),
    decreases e.len(),
{
    if e.len() != 0 {
        let front = e.drop_last();
        lemma_visible_members(front);
        assert forall|i: int| 0 <= i < visible(e).len() implies !((#[trigger] visible(
            e,
        )[i]).1 is Empty) && e.contains(visible(e)[i]) by {
            if i < visible(front).len() {
                let j = choose|j: int| 0 <= j < front.len() && front[j] == visible(front)[i];
                assert(e[j] == visible(e)[i]);
            } else {
                assert(e[e.len() - 1] == visible(e)[i]);
            }
        }
        assert forall|j: int| 0 <= j < e.len() && !((#[trigger] e[j]).1 is Empty) implies visible(
            e,
        ).contains(e[j]) by {
            if j < front.len() {
                assert(front[j] == e[j]);
                let i = choose|i: int| 0 <= i < visible(front).len() && visible(front)[i] == e[j];
                assert(visible(e)[i] == e[j]);
            } else {
                assert(visible(e)[visible(e).len() - 1] == e[j]);
            }
        }
    }
}

/// Where a written entry shows: after `node`, which is no placeholder, is
/// stored under `key`, the entry is visible at the index that is returned, no
/// visible entry before it has the key, and every other visible entry was
/// visible before the write.
pub proof fn lemma_visible_put(e: Entries, key: Seq<char>, node: Node) -> (at: int)
    requires
        !(node is Empty),
    ensures
        0 <= at < visible(put(e, key, node)).len(),
        visible(put(e, key, node))[at] == (key, node),
        forall|j: int| 0 <= j < at ==> (#[trigger] visible(put(e, key, node))[j]).0 != key,
        forall|j: int|
            0 <= j < visible(put(e, key, node)).len() && j != at ==> visible(e).contains(
                #[trigger] visible(put(e, key, node))[j],
            ),
{
    lemma_index_of(e, key);
    let after = put(e, key, node);
    let i = index_of(e, key);
    let one = seq![(key, node)];
    let front = e.take(i);
    lemma_visible_one((key, node));
    lemma_visible_members(front);
    lemma_visible_members(e);
    let at = visible(front).len() as int;
    assert forall|j: int| 0 <= j < at implies (#[trigger] visible(front)[j]).0 != key by {
        let k = choose|k: int| 0 <= k < front.len() && front[k] == visible(front)[j];
        assert(front[k] == e[k]);
    }
    if has_key(e, key) {
        let back = e.skip(i + 1);
        assert(e == front + seq![e[i]] + back);
        assert(after == front + one + back);
        lemma_visible_concat(front, one);
        lemma_visible_concat(front + one, back);
        lemma_visible_concat(front, seq![e[i]]);
        lemma_visible_concat(front + seq![e[i]], back);
        lemma_visible_one(e[i]);
        lemma_visible_members(back);
        assert(visible(after) == visible(front) + one + visible(back));
        assert(visible(after)[at] == (key, node));
        assert forall|j: int| 0 <= j < visible(after).len() && j != at implies visible(
            e,
        ).contains(#[trigger] visible(after)[j]) by {
            if j < at {
                let k = choose|k: int| 0 <= k < front.len() && front[k] == visible(front)[j];
                assert(e[k] == visible(after)[j]);
            } else {
                let k = choose|k: int|
                    0 <= k < back.len() && back[k] == visible(back)[j - at - 1];
                assert(e[i + 1 + k] == visible(after)[j]);
            }
        }
    } else {
        assert(front == e);
        assert(after == e + one);
        lemma_visible_concat(e, one);
        assert(visible(after)[at] == (key, node));
        assert forall|j: int| 0 <= j < visible(after).len() && j != at implies visible(
            e,
        ).contains(#[trigger] visible(after)[j]) by {
            assert(visible(after)[j] == visible(e)[j]);
        }
    }
    at
}

/// Taking out a key that no visible entry has leaves the visible entries as
/// they were.
pub proof fn lemma_visible_remove_hidden(e: Entries, key: Seq<char>)
    requires
        !visible_keys(e).contains(key),
    ensures
        visible(remove_key(e, key)) == visible(e),
{
    lemma_index_of(e, key);
    if has_key(e, key) {
        let i = index_of(e, key);
        let front = e.take(i);
        let back = e.skip(i + 1);
        lemma_visible_members(e);
        if !(e[i].1 is Empty) {
            let at = choose|at: int| 0 <= at < visible(e).len() && visible(e)[at] == e[i];
            assert(visible_keys(e)[at] == key);
        }
        assert(e == front + seq![e[i]] + back);
        assert(remove_key(e, key) == front + back);
        lemma_visible_concat(front, seq![e[i]]);
        lemma_visible_concat(front + seq![e[i]], back);
        lemma_visible_concat(front, back);
        lemma_visible_one(e[i]);
        assert(visible(front) + Seq::<(Seq<char>, Node)>::empty() == visible(front));
    }
}

/// Where no two entries share a key, taking a key out leaves no entry under
/// it, visible or not.
pub proof fn lemma_remove_key_gone(e: Entries, key: Seq<char>)
    requires
        distinct_keys(e),
    ensures
        !has_key(remove_key(e, key), key),
        !visible_keys(remove_key(e, key)).contains(key),
        distinct_keys(remove_key(e, key)),
{
    lemma_index_of(e, key);
    let after = remove_key(e, key);
    let i = index_of(e, key);
    assert forall|j: int| 0 <= j < after.len() implies (#[trigger] after[j]).0 != key by {
        if has_key(e, key) {
            if j < i {
                assert(after[j] == e[j]);
            } else {
                assert(after[j] == e[j + 1]);
                assert(e[i].0 != e[j + 1].0);
            }
        } else {
            assert(after[j] == e[j]);
        }
    }
    lemma_index_of_is(after, key, after.len() as int);
    lemma_visible_members(after);
    assert forall|j: int| 0 <= j < visible_keys(after).len() implies visible_keys(after)[j]
        != key by {
        let k = choose|k: int| 0 <= k < after.len() && after[k] == visible(after)[j];
        assert(after[k].0 != key);
    }
    assert forall|a: int, b: int| 0 <= a < b < after.len() implies (#[trigger] after[a]).0 != (
    #[trigger] after[b]).0 by {
        if has_key(e, key) {
            let a0 = if a < i { a } else { a + 1 };
            let b0 = if b < i { b } else { b + 1 };
            assert(after[a] == e[a0]);
            assert(after[b] == e[b0]);
        }
    }
}

/// In a concatenation a key is found in the first part, or else in the
/// second.
pub proof fn lemma_first_of_concat<V>(
    a: Seq<(Seq<char>, V)>,
    b: Seq<(Seq<char>, V)>,
    key: Seq<char>,
)
    ensures
        index_of(a + b, key) == (if index_of(a, key) < a.len() {
            index_of(a, key)
        } else {
            a.len() + index_of(b, key)
        }),
        first_of(a + b, key) == (if first_of(a, key) is Some {
            first_of(a, key)
        } else {
            first_of(b, key)
        }),
{
    lemma_index_of(a, key);
    lemma_index_of(b, key);
    let i = if index_of(a, key) < a.len() {
        index_of(a, key)
    } else {
        a.len() + index_of(b, key)
    };
    assert forall|j: int| 0 <= j < i implies (#[trigger] (a + b)[j]).0 != key by {
        if j < a.len() {
            assert((a + b)[j] == a[j]);
        } else {
            assert((a + b)[j] == b[j - a.len()]);
        }
    }
    if i < (a + b).len() {
        if i < a.len() {
            assert((a + b)[i] == a[i]);
        } else {
            assert((a + b)[i] == b[i - a.len()]);
        }
    }
    lemma_index_of_is(a + b, key, i);
}

/// A list of one pair holds its value under its key and nothing under any
/// other.
pub proof fn lemma_first_of_one<V>(p: (Seq<char>, V), key: Seq<char>)
    ensures
        first_of(seq![p], key) == (if p.0 == key {
            Some(p.1)
        } else {
            None
        }),
{
    let s = seq![p];
    lemma_index_of_is(s, key, if p.0 == key { 0 } else { 1 });
}

/// Two lists with the same keys at the same places find a key at the same
/// place.
pub proof fn lemma_index_of_same_keys<V, W>(
    a: Seq<(Seq<char>, V)>,
    b: Seq<(Seq<char>, W)>,
    key: Seq<char>,
)
    requires
        a.len() == b.len(),
        forall|i: int| 0 <= i < a.len() ==> (#[trigger] a[i]).0 == b[i].0,
    ensures
        index_of(a, key) == index_of(b, key),
{
    lemma_index_of(a, key);
    let i = index_of(a, key);
    assert forall|j: int| 0 <= j < i implies (#[trigger] b[j]).0 != key by {
        assert(a[j].0 == b[j].0);
    }
    if i < b.len() {
        assert(a[i].0 == b[i].0);
    }
    lemma_index_of_is(b, key, i);
}

/// A write under one key leaves what an enumeration finds under every other
/// key as it was.
pub proof fn lemma_visible_put_other(e: Entries, key: Seq<char>, node: Node, other: Seq<char>)
    requires
        !(node is Empty),
        other != key,
    ensures
        first_of(visible(put(e, key, node)), other) == first_of(visible(e), other),
{
    lemma_index_of(e, key);
    let after = put(e, key, node);
    let i = index_of(e, key);
    let one = seq![(key, node)];
    lemma_visible_one((key, node));
    lemma_first_of_one((key, node), other);
    if has_key(e, key) {
        let front = e.take(i);
        let back = e.skip(i + 1);
        let was = seq![e[i]];
        assert(e == front + was + back);
        assert(after == front + one + back);
        lemma_visible_concat(front, one);
        lemma_visible_concat(front + one, back);
        lemma_visible_concat(front, was);
        lemma_visible_concat(front + was, back);
        lemma_visible_one(e[i]);
        lemma_first_of_one(e[i], other);
        assert(first_of(visible(was), other) is None) by {
            if e[i].1 is Empty {
                assert(visible(was).len() == 0);
            }
        }
        lemma_first_of_concat(visible(front), one, other);
        lemma_first_of_concat(visible(front) + one, visible(back), other);
        lemma_first_of_concat(visible(front), visible(was), other);
        lemma_first_of_concat(visible(front) + visible(was), visible(back), other);
    } else {
        assert(after == e + one);
        lemma_visible_concat(e, one);
        lemma_first_of_concat(visible(e), one, other);
    }
}

} // verus!
