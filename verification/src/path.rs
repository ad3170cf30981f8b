//! Paths as sequences of characters: splitting a path into its segments and
//! joining segments back into a path.
//!
//! A path is cut at every `/`. Nothing is normalised: an empty segment stays
//! an empty segment, so splitting and joining are exact inverses of each other
//! on segments that hold no separator.

use vstd::prelude::*;

verus! {

/// The character that separates the segments of a path.
pub open spec fn separator() -> char {
    '/'
}

/// Whether `s` holds no separator.
pub open spec fn separator_free(s: Seq<char>) -> bool {
    forall|i: int| 0 <= i < s.len() ==> s[i] != separator()
}

/// Whether every segment of `segs` holds no separator.
pub open spec fn all_separator_free(segs: Seq<Seq<char>>) -> bool {
    forall|i: int| 0 <= i < segs.len() ==> separator_free(#[trigger] segs[i])
}

/// The segments of `s`: the pieces between its separators, in order. A path
/// with `n` separators has `n + 1` segments, some of them possibly empty.
pub open spec fn split(s: Seq<char>) -> Seq<Seq<char>>
    decreases s.len(),
{
    if s.len() == 0 {
        seq![Seq::<char>::empty()]
    } else {
        let before = split(s.drop_last());
        if s.last() == separator() {
            before.push(Seq::<char>::empty())
        } else {
            before.update(before.len() - 1, before.last().push(s.last()))
        }
    }
}

/// The path made of `segs`, with one separator between neighbours.
pub open spec fn join(segs: Seq<Seq<char>>) -> Seq<char>
    decreases segs.len(),
{
    if segs.len() == 0 {
        Seq::<char>::empty()
    } else if segs.len() == 1 {
        segs[0]
    } else {
        join(segs.drop_last()) + seq![separator()] + segs.last()
    }
}

/// A path always has at least one segment, and no segment holds a separator.
pub proof fn lemma_split_shape(s: Seq<char>)
    ensures
        split(s).len() >= 1,
        all_separator_free(split(s)),
    decreases s.len(),
{
    if s.len() > 0 {
        lemma_split_shape(s.drop_last());
    }
}

/// Appending separator-free text to a path extends its last segment.
pub proof fn lemma_split_append_text(s: Seq<char>, t: Seq<char>)
    requires
        separator_free(t),
    ensures
        split(s + t) == split(s).update(split(s).len() - 1, split(s).last() + t),
    decreases t.len(),
{
    lemma_split_shape(s);
    if t.len() == 0 {
        assert(s + t =~= s);
        assert(split(s).last() + t =~= split(s).last());
        assert(split(s).update(split(s).len() - 1, split(s).last()) =~= split(s));
    } else {
        let t0 = t.drop_last();
        lemma_split_append_text(s, t0);
        assert((s + t).drop_last() =~= s + t0);
        assert((s + t).last() == t.last());
        assert(t.last() != separator());
        let base = split(s);
        let mid = split(s + t0);
        assert(mid.last().push(t.last()) =~= base.last() + t);
        assert(mid.update(mid.len() - 1, mid.last().push(t.last())) =~= base.update(
            base.len() - 1,
            base.last() + t,
        ));
    }
}

/// Appending a separator to a path opens a new, empty segment.
pub proof fn lemma_split_append_separator(s: Seq<char>)
    ensures
        split(s.push(separator())) == split(s).push(Seq::<char>::empty()),
{
    assert(s.push(separator()).drop_last() =~= s);
}

/// Splitting undoes joining: the segments of a joined path are the segments
/// that were joined, provided there is at least one and none holds a
/// separator.
pub proof fn lemma_split_join(segs: Seq<Seq<char>>)
    requires
        segs.len() >= 1,
        all_separator_free(segs),
    ensures
        split(join(segs)) == segs,
    decreases segs.len(),
{
    let empty = Seq::<char>::empty();
    if segs.len() == 1 {
        lemma_split_append_text(empty, segs[0]);
        assert(empty + segs[0] =~= segs[0]);
        assert(split(empty) =~= seq![empty]);
        assert(split(segs[0]) =~= segs);
    } else {
        let init = segs.drop_last();
        assert(all_separator_free(init)) by {
            assert forall|i: int| 0 <= i < init.len() implies separator_free(
                #[trigger] init[i],
            ) by {
                assert(init[i] == segs[i]);
            }
        }
        lemma_split_join(init);
        let head = join(init).push(separator());
        lemma_split_append_separator(join(init));
        lemma_split_append_text(head, segs.last());
        assert(join(segs) =~= head + segs.last());
        assert(empty + segs.last() =~= segs.last());
        assert(split(join(segs)) =~= segs);
    }
}

/// Joining undoes splitting: a path is its segments joined.
pub proof fn lemma_join_split(s: Seq<char>)
    ensures
        join(split(s)) == s,
    decreases s.len(),
{
    if s.len() == 0 {
        assert(join(split(s)) =~= s);
    } else {
        let rest = s.drop_last();
        lemma_join_split(rest);
        lemma_split_shape(rest);
        let before = split(rest);
        if s.last() == separator() {
            let after = before.push(Seq::<char>::empty());
            assert(after.drop_last() =~= before);
            assert(join(after) =~= join(before) + seq![separator()]);
            assert(join(after) =~= s);
        } else {
            let after = before.update(before.len() - 1, before.last().push(s.last()));
            if before.len() == 1 {
                assert(join(before) == before[0]);
                assert(join(after) == after[0]);
                assert(s =~= rest.push(s.last()));
            } else {
                assert(after.drop_last() =~= before.drop_last());
                assert(join(after) =~= join(before.drop_last()) + seq![separator()]
                    + before.last().push(s.last()));
                assert(s =~= rest.push(s.last()));
                assert(join(after) =~= s);
            }
        }
    }
}

/// Joining one more segment onto a non-empty list adds a separator and the
/// segment.
pub proof fn lemma_join_push(segs: Seq<Seq<char>>, last: Seq<char>)
    requires
        segs.len() >= 1,
    ensures
        join(segs.push(last)) == join(segs) + seq![separator()] + last,
{
    assert(segs.push(last).drop_last() =~= segs);
}

/// The segments of a path as index ranges into its characters: segment `k`
/// runs from `bounds[k].0` up to, not including, `bounds[k].1`.
pub open spec fn segments_at(chars: Seq<char>, bounds: Seq<(usize, usize)>) -> Seq<Seq<char>> {
    Seq::new(bounds.len(), |k: int| chars.subrange(bounds[k].0 as int, bounds[k].1 as int))
}

/// Whether every range of `bounds` lies inside a text of `len` characters.
pub open spec fn bounds_within(bounds: Seq<(usize, usize)>, len: nat) -> bool {
    forall|k: int|
        0 <= k < bounds.len() ==> (#[trigger] bounds[k]).0 <= bounds[k].1 && bounds[k].1 <= len
}

/// Cuts `chars` at every separator and returns where each segment lies.
pub fn split_bounds(chars: &Vec<char>) -> (bounds: Vec<(usize, usize)>)
    ensures
        bounds_within(bounds@, chars@.len()),
        segments_at(chars@, bounds@) == split(chars@),
{
    let n: usize = chars.len();
    let mut bounds: Vec<(usize, usize)> = Vec::new();
    let mut start: usize = 0;
    let mut i: usize = 0;
    proof {
        assert(chars@.take(0) =~= Seq::<char>::empty());
        assert(segments_at(chars@, bounds@).push(chars@.subrange(0, 0)) =~= split(
            chars@.take(0),
        ));
    }
    while i < n
        invariant
            n == chars@.len(),
            start <= i <= n,
            bounds_within(bounds@, i as nat),
            segments_at(chars@, bounds@).push(chars@.subrange(start as int, i as int)) == split(
                chars@.take(i as int),
            ),
        decreases n - i,
    {
        let ghost before = split(chars@.take(i as int));
        let ghost old_bounds = bounds@;
        proof {
            assert(chars@.take(i + 1).drop_last() =~= chars@.take(i as int));
            assert(chars@.take(i + 1).last() == chars@[i as int]);
        }
        if chars[i] == '/' {
            bounds.push((start, i));
            start = i + 1;
            proof {
                assert(segments_at(chars@, bounds@) =~= segments_at(chars@, old_bounds).push(
                    chars@.subrange(bounds@.last().0 as int, i as int),
                ));
                assert(chars@.subrange(start as int, i + 1) =~= Seq::<char>::empty());
            }
        } else {
            proof {
                assert(chars@.subrange(start as int, i + 1) =~= chars@.subrange(
                    start as int,
                    i as int,
                ).push(chars@[i as int]));
                assert(segments_at(chars@, bounds@).push(chars@.subrange(start as int, i + 1))
                    =~= before.update(
                    before.len() - 1,
                    before.last().push(chars@[i as int]),
                ));
            }
        }
        i += 1;
    }
    let ghost open = segments_at(chars@, bounds@);
    bounds.push((start, n));
    proof {
        assert(chars@.take(n as int) =~= chars@);
        assert(segments_at(chars@, bounds@) =~= open.push(chars@.subrange(start as int, n as int)));
    }
    bounds
}

} // verus!
