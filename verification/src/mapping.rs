//! Mappings as ordered lists of entries: looking a field up, dropping
//! entries by their keys, and rewriting the mapping that a field holds.

use vstd::prelude::*;

use crate::document::Document;
use crate::document::Entries;
use crate::document::entries_view;
use crate::document::lemma_mapping_view;
use crate::document::Node;
use crate::text::same_text;

verus! {

/// A choice of keys.
pub type KeyFilter = spec_fn(Node) -> bool;

/// A change made to the entries of a mapping.
pub type Rewrite = spec_fn(Entries) -> Entries;

/// Whether `key` is the text `name`.
pub open spec fn keyed(key: Node, name: Seq<char>) -> bool {
    key == Node::String(name)
}

/// The keys that are the text `name`.
pub open spec fn named(name: Seq<char>) -> KeyFilter {
    |key: Node| keyed(key, name)
}

/// Where the first entry with the key `name` stands, if there is one.
pub open spec fn position(entries: Entries, name: Seq<char>) -> Option<int>
    decreases entries.len(),
{
    if entries.len() == 0 {
        None
    } else {
        match position(entries.drop_last(), name) {
            Some(i) => Some(i),
            None => if keyed(entries.last().0, name) {
                Some(entries.len() - 1)
            } else {
                None
            },
        }
    }
}

/// The value of the first entry with the key `name`.
pub open spec fn value_at(entries: Entries, name: Seq<char>) -> Option<Node> {
    match position(entries, name) {
        Some(i) => Some(entries[i].1),
        None => None,
    }
}

/// The entries of the mapping that the field `name` holds, if it holds one.
pub open spec fn child(entries: Entries, name: Seq<char>) -> Option<Entries> {
    match value_at(entries, name) {
        Some(Node::Mapping(inner)) => Some(inner),
        _ => None,
    }
}

/// The entries, in order, whose keys `drops` does not choose.
pub open spec fn without(entries: Entries, drops: KeyFilter) -> Entries
    decreases entries.len(),
{
    if entries.len() == 0 {
        entries
    } else {
        let rest = without(entries.drop_last(), drops);
        if drops(entries.last().0) {
            rest
        } else {
            rest.push(entries.last())
        }
    }
}

/// Whether `drops` chooses none of the keys.
pub open spec fn free_of(entries: Entries, drops: KeyFilter) -> bool {
    forall|i: int| 0 <= i < entries.len() ==> !drops(#[trigger] entries[i].0)
}

/// The entries with the mapping of the field `name` replaced by `inner`.
pub open spec fn replaced(entries: Entries, name: Seq<char>, inner: Entries) -> Entries {
    match position(entries, name) {
        Some(i) => entries.update(i, (entries[i].0, Node::Mapping(inner))),
        None => entries,
    }
}

/// The entries after `change` was made to the mapping that the field `name`
/// holds. Where `prune` is set and nothing is left of that mapping, the field
/// goes too. Entries without such a field stay as they are.
pub open spec fn rewritten(entries: Entries, name: Seq<char>, change: Rewrite, prune: bool)
    -> Entries {
    match child(entries, name) {
        Some(inner) => {
            let changed = change(inner);
            if prune && changed.len() == 0 {
                without(entries, named(name))
            } else {
                replaced(entries, name, changed)
            }
        },
        None => entries,
    }
}

/// Whether rewriting the field `name` has nothing left to do.
pub open spec fn settled(entries: Entries, name: Seq<char>, change: Rewrite, prune: bool) -> bool {
    match child(entries, name) {
        Some(inner) => change(inner) == inner && (prune ==> inner.len() > 0),
        None => true,
    }
}

/// The first entry with a key is where `position` says, and nowhere before.
pub proof fn lemma_position(entries: Entries, name: Seq<char>)
    ensures
        match position(entries, name) {
            Some(i) => 0 <= i < entries.len() && keyed(entries[i].0, name) && forall|j: int|
                0 <= j < i ==> !keyed(#[trigger] entries[j].0, name),
            None => free_of(entries, named(name)),
        },
    decreases entries.len(),
{
    if entries.len() > 0 {
        let init = entries.drop_last();
        lemma_position(init, name);
        match position(init, name) {
            Some(i) => {
                assert forall|j: int| 0 <= j < i implies !keyed(#[trigger] entries[j].0, name) by {
                    assert(entries[j] == init[j]);
                }
            },
            None => {
                assert forall|j: int| 0 <= j < entries.len() - 1 implies !keyed(
                    #[trigger] entries[j].0,
                    name,
                ) by {
                    assert(entries[j] == init[j]);
                    assert(!named(name)(init[j].0));
                }
            },
        }
    }
}

/// An index that holds the key and has none before it is the position.
pub proof fn lemma_position_is(entries: Entries, name: Seq<char>, at: int)
    requires
        0 <= at < entries.len(),
        keyed(entries[at].0, name),
        forall|j: int| 0 <= j < at ==> !keyed(#[trigger] entries[j].0, name),
    ensures
        position(entries, name) == Some(at),
{
    lemma_position(entries, name);
    match position(entries, name) {
        Some(i) => {
            if i < at {
                assert(!keyed(entries[i].0, name));
            }
        },
        None => {
            assert(!named(name)(entries[at].0));
        },
    }
}

/// What is left after dropping keys holds none of them, is no longer than
/// before, and keeps whatever other keys were absent absent.
pub proof fn lemma_without(entries: Entries, drops: KeyFilter, other: KeyFilter)
    ensures
        free_of(without(entries, drops), drops),
        without(entries, drops).len() <= entries.len(),
        free_of(entries, other) ==> free_of(without(entries, drops), other),
        free_of(entries, drops) ==> without(entries, drops) == entries,
    decreases entries.len(),
{
    if entries.len() > 0 {
        let init = entries.drop_last();
        lemma_without(init, drops, other);
        if free_of(entries, other) {
            assert forall|i: int| 0 <= i < init.len() implies !other(#[trigger] init[i].0) by {
                assert(init[i] == entries[i]);
            }
        }
        if free_of(entries, drops) {
            assert forall|i: int| 0 <= i < init.len() implies !drops(#[trigger] init[i].0) by {
                assert(init[i] == entries[i]);
            }
            assert(!drops(entries[entries.len() - 1].0));
            assert(init.push(entries.last()) =~= entries);
        }
    }
}

/// Dropping keys leaves the first value of every key that is not dropped.
pub proof fn lemma_without_keeps_value(entries: Entries, drops: KeyFilter, name: Seq<char>)
    requires
        !drops(Node::String(name)),
    ensures
        value_at(without(entries, drops), name) == value_at(entries, name),
    decreases entries.len(),
{
    if entries.len() > 0 {
        let init = entries.drop_last();
        let last = entries.last();
        lemma_without_keeps_value(init, drops, name);
        lemma_position(init, name);
        lemma_position(without(init, drops), name);
        let kept = without(init, drops);
        if drops(last.0) {
            assert(!keyed(last.0, name));
        } else {
            assert(kept.push(last).drop_last() =~= kept);
            match position(kept, name) {
                Some(i) => {
                    assert(kept.push(last)[i] == kept[i]);
                },
                None => {},
            }
        }
        match position(init, name) {
            Some(i) => {
                assert(entries[i] == init[i]);
            },
            None => {},
        }
    }
}

/// Entries with the same keys in the same places have every key's first
/// entry in the same place.
pub proof fn lemma_same_keys_same_position(a: Entries, b: Entries, name: Seq<char>)
    requires
        a.len() == b.len(),
        forall|j: int| 0 <= j < a.len() ==> (#[trigger] a[j]).0 == b[j].0,
    ensures
        position(a, name) == position(b, name),
{
    lemma_position(a, name);
    lemma_position(b, name);
    match position(b, name) {
        Some(i) => {
            assert forall|j: int| 0 <= j < i implies !keyed(#[trigger] a[j].0, name) by {
                assert(a[j].0 == b[j].0);
            }
            assert(a[i].0 == b[i].0);
            lemma_position_is(a, name, i);
        },
        None => {
            match position(a, name) {
                Some(i) => {
                    assert(a[i].0 == b[i].0);
                    assert(!named(name)(b[i].0));
                },
                None => {},
            }
        },
    }
}

/// Replacing the mapping of a field changes no key: whatever keys were
/// absent stay absent, and every other field keeps its value.
pub proof fn lemma_replaced(
    entries: Entries,
    name: Seq<char>,
    inner: Entries,
    other: Seq<char>,
    absent: KeyFilter,
)
    ensures
        replaced(entries, name, inner).len() == entries.len(),
        position(replaced(entries, name, inner), other) == position(entries, other),
        other != name ==> value_at(replaced(entries, name, inner), other) == value_at(
            entries,
            other,
        ),
        position(entries, name) is Some ==> value_at(replaced(entries, name, inner), name) == Some(
            Node::Mapping(inner),
        ),
        free_of(entries, absent) ==> free_of(replaced(entries, name, inner), absent),
{
    let after = replaced(entries, name, inner);
    lemma_position(entries, name);
    lemma_position(entries, other);
    assert forall|j: int| 0 <= j < entries.len() implies (#[trigger] after[j]).0
        == entries[j].0 by {}
    lemma_same_keys_same_position(after, entries, other);
    lemma_same_keys_same_position(after, entries, name);
    if free_of(entries, absent) {
        assert forall|j: int| 0 <= j < after.len() implies !absent(#[trigger] after[j].0) by {
            assert(after[j].0 == entries[j].0);
        }
    }
}

/// Rewriting a field leaves absent keys absent and every other field's value
/// as it was.
pub proof fn lemma_rewritten_frame(
    entries: Entries,
    name: Seq<char>,
    change: Rewrite,
    prune: bool,
    other: Seq<char>,
    absent: KeyFilter,
)
    ensures
        other != name ==> value_at(rewritten(entries, name, change, prune), other) == value_at(
            entries,
            other,
        ),
        free_of(entries, absent) ==> free_of(rewritten(entries, name, change, prune), absent),
{
    match child(entries, name) {
        Some(inner) => {
            lemma_replaced(entries, name, change(inner), other, absent);
            lemma_without(entries, named(name), absent);
            if other != name {
                lemma_without_keeps_value(entries, named(name), other);
            }
        },
        None => {},
    }
}

/// Where rewriting a field has nothing left to do, it changes nothing.
pub proof fn lemma_settled_is_fixed(entries: Entries, name: Seq<char>, change: Rewrite, prune: bool)
    requires
        settled(entries, name, change, prune),
    ensures
        rewritten(entries, name, change, prune) == entries,
{
    match child(entries, name) {
        Some(inner) => {
            lemma_position(entries, name);
            assert(replaced(entries, name, inner) =~= entries);
        },
        None => {},
    }
}

/// After a field was rewritten by a change that undoes nothing of its own
/// work, rewriting it has nothing left to do.
pub proof fn lemma_rewritten_is_settled(
    entries: Entries,
    name: Seq<char>,
    change: Rewrite,
    prune: bool,
)
    requires
        child(entries, name) matches Some(inner) ==> change(change(inner)) == change(inner),
    ensures
        settled(rewritten(entries, name, change, prune), name, change, prune),
{
    match child(entries, name) {
        Some(inner) => {
            let changed = change(inner);
            if prune && changed.len() == 0 {
                lemma_without(entries, named(name), named(name));
                let rest = without(entries, named(name));
                lemma_position(rest, name);
                match position(rest, name) {
                    Some(i) => {
                        assert(named(name)(rest[i].0));
                    },
                    None => {},
                }
            } else {
                lemma_replaced(entries, name, changed, name, named(name));
            }
        },
        None => {},
    }
}

/// Rewriting a field twice is rewriting it once, for a change that undoes
/// nothing of its own work.
pub proof fn lemma_rewritten_idempotent(
    entries: Entries,
    name: Seq<char>,
    change: Rewrite,
    prune: bool,
)
    requires
        child(entries, name) matches Some(inner) ==> change(change(inner)) == change(inner),
    ensures
        rewritten(rewritten(entries, name, change, prune), name, change, prune) == rewritten(
            entries,
            name,
            change,
            prune,
        ),
{
    lemma_rewritten_is_settled(entries, name, change, prune);
    lemma_settled_is_fixed(rewritten(entries, name, change, prune), name, change, prune);
}

/// A field that another rewrite does not touch stays settled.
pub proof fn lemma_settled_frame(
    entries: Entries,
    name: Seq<char>,
    change: Rewrite,
    prune: bool,
    other: Seq<char>,
    other_change: Rewrite,
    other_prune: bool,
)
    requires
        other != name,
        settled(entries, name, change, prune),
    ensures
        settled(rewritten(entries, other, other_change, other_prune), name, change, prune),
{
    lemma_rewritten_frame(entries, other, other_change, other_prune, name, named(name));
}

/// Dropping keys from a list made of two parts drops them from each part.
pub proof fn lemma_without_concat(a: Entries, b: Entries, drops: KeyFilter)
    ensures
        without(a + b, drops) == without(a, drops) + without(b, drops),
    decreases b.len(),
{
    if b.len() == 0 {
        assert(a + b =~= a);
        assert(without(a, drops) + without(b, drops) =~= without(a, drops));
    } else {
        lemma_without_concat(a, b.drop_last(), drops);
        assert((a + b).drop_last() =~= a + b.drop_last());
        assert((a + b).last() == b.last());
        if !drops(b.last().0) {
            assert((without(a, drops) + without(b.drop_last(), drops)).push(b.last())
                =~= without(a, drops) + without(b.drop_last(), drops).push(b.last()));
        }
    }
}

/// Taking an entry out whose key is dropped anyway changes nothing of what
/// is left after dropping.
pub proof fn lemma_without_removed(entries: Entries, at: int, drops: KeyFilter)
    requires
        0 <= at < entries.len(),
        drops(entries[at].0),
    ensures
        without(entries.remove(at), drops) == without(entries, drops),
{
    let before = entries.take(at);
    let one = seq![entries[at]];
    let after = entries.skip(at + 1);
    assert(entries =~= before + one + after);
    assert(entries.remove(at) =~= before + after);
    lemma_without_concat(before, after, drops);
    lemma_without_concat(before + one, after, drops);
    lemma_without_concat(before, one, drops);
    assert(one.drop_last() =~= Seq::<(Node, Node)>::empty());
    assert(without(one.drop_last(), drops) =~= Seq::<(Node, Node)>::empty());
    assert(one.last() == entries[at]);
    assert(without(one, drops) =~= Seq::<(Node, Node)>::empty());
    assert(without(before, drops) + without(one, drops) =~= without(before, drops));
}

/// Whether `key` is the text `name`.
pub fn key_is(key: &Document, name: &str) -> (same: bool)
    ensures
        same == keyed(key@, name@),
{
    match key {
        Document::String(text) => same_text(text.as_str(), name),
        _ => false,
    }
}

/// Where the first entry with the key `name` stands.
pub fn find(entries: &Vec<(Document, Document)>, name: &str) -> (at: Option<usize>)
    ensures
        match at {
            Some(i) => position(entries_view(entries@), name@) == Some(i as int),
            None => position(entries_view(entries@), name@) is None,
        },
{
    let ghost view = entries_view(entries@);
    let mut i: usize = 0;
    while i < entries.len()
        invariant
            i <= entries.len(),
            view == entries_view(entries@),
            forall|j: int| 0 <= j < i ==> !keyed(#[trigger] view[j].0, name@),
        decreases entries.len() - i,
    {
        if key_is(&entries[i].0, name) {
            proof {
                lemma_position_is(view, name@, i as int);
            }
            return Some(i);
        }
        i += 1;
    }
    proof {
        lemma_position(view, name@);
        match position(view, name@) {
            Some(k) => {
                assert(keyed(view[k].0, name@));
            },
            None => {},
        }
    }
    None
}

/// Takes the mapping that the field `name` holds out of `entries`, together
/// with the place and the key of its entry. Where the field holds no mapping,
/// nothing is taken.
pub fn take_child(entries: &mut Vec<(Document, Document)>, name: &str) -> (taken: Option<
    (usize, Document, Vec<(Document, Document)>),
>)
    ensures
        match taken {
            Some((at, key, inner)) => {
                let before = entries_view(old(entries)@);
                &&& position(before, name@) == Some(at as int)
                &&& child(before, name@) == Some(entries_view(inner@))
                &&& key@ == before[at as int].0
                &&& entries_view(final(entries)@) == before.remove(at as int)
            },
            None => child(entries_view(old(entries)@), name@) is None && final(entries)@ == old(
                entries,
            )@,
        },
{
    let ghost before = entries_view(entries@);
    match find(entries, name) {
        Some(at) => {
            proof {
                lemma_position(before, name@);
            }
            let holds_mapping = match &entries[at].1 {
                Document::Mapping(_) => true,
                _ => false,
            };
            if !holds_mapping {
                return None;
            }
            let (key, value) = entries.remove(at);
            proof {
                assert(entries_view(entries@) =~= before.remove(at as int));
            }
            match value {
                Document::Mapping(inner) => {
                    proof {
                        lemma_mapping_view(inner);
                    }
                    Some((at, key, inner))
                },
                other => {
                    entries.insert(at, (key, other));
                    None
                },
            }
        },
        None => None,
    }
}

} // verus!
