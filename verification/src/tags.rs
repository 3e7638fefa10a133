//! Tag lists without duplicate keys.
//!
//! A point carries each tag key once. Setting a key that is already there
//! replaces its value in place; a new key goes to the end. Merging a second
//! list into a first sets its pairs one after the other, so a later pair wins
//! over an earlier one with the same key.

use vstd::prelude::*;
use crate::settings::{pairs_view, SettingsPair};

verus! {

/// Some pair of `tags` has the key `k`.
pub open spec fn has_key(tags: Seq<(Seq<char>, Seq<char>)>, k: Seq<char>) -> bool {
    exists|i: int| 0 <= i < tags.len() && (#[trigger] tags[i]).0 == k
}

/// A place at which `tags` has the key `k`, where it has one.
pub open spec fn position(tags: Seq<(Seq<char>, Seq<char>)>, k: Seq<char>) -> int {
    choose|i: int| 0 <= i < tags.len() && (#[trigger] tags[i]).0 == k
}

/// No key occurs twice in `tags`.
pub open spec fn distinct_keys(tags: Seq<(Seq<char>, Seq<char>)>) -> bool {
    forall|i: int, j: int|
        0 <= i < j < tags.len() ==> (#[trigger] tags[i]).0 != (#[trigger] tags[j]).0
}

/// The value that `tags` gives the key `k`, if any.
pub open spec fn lookup(tags: Seq<(Seq<char>, Seq<char>)>, k: Seq<char>) -> Option<Seq<char>> {
    if has_key(tags, k) {
        Some(tags[position(tags, k)].1)
    } else {
        None
    }
}

/// `tags` with the key `k` set to `v`: replaced where the key stands, added
/// at the end where it does not.
pub open spec fn upsert(tags: Seq<(Seq<char>, Seq<char>)>, k: Seq<char>, v: Seq<char>) -> Seq<
    (Seq<char>, Seq<char>),
> {
    if has_key(tags, k) {
        tags.update(position(tags, k), (k, v))
    } else {
        tags.push((k, v))
    }
}

/// `base` with each pair of `extra` set in turn, first to last.
pub open spec fn merge_tags(
    base: Seq<(Seq<char>, Seq<char>)>,
    extra: Seq<(Seq<char>, Seq<char>)>,
) -> Seq<(Seq<char>, Seq<char>)>
    decreases extra.len(),
{
    if extra.len() == 0 {
        base
    } else {
        upsert(merge_tags(base, extra.drop_last()), extra.last().0, extra.last().1)
    }
}

/// Setting a key keeps the keys distinct, and changes the length only when
/// the key is new.
pub proof fn lemma_upsert_distinct(tags: Seq<(Seq<char>, Seq<char>)>, k: Seq<char>, v: Seq<char>)
    requires
        distinct_keys(tags),
    ensures
        distinct_keys(upsert(tags, k, v)),
        has_key(tags, k) ==> upsert(tags, k, v).len() == tags.len(),
        !has_key(tags, k) ==> upsert(tags, k, v).len() == tags.len() + 1,
{
    let out = upsert(tags, k, v);
    if has_key(tags, k) {
        let p = position(tags, k);
        assert forall|i: int, j: int| 0 <= i < j < out.len() implies (#[trigger] out[i]).0 != (
        #[trigger] out[j]).0 by {
            assert(out[i].0 == tags[i].0);
            assert(out[j].0 == tags[j].0);
        }
    } else {
        assert forall|i: int, j: int| 0 <= i < j < out.len() implies (#[trigger] out[i]).0 != (
        #[trigger] out[j]).0 by {
            if j < tags.len() {
                assert(out[i] == tags[i]);
                assert(out[j] == tags[j]);
            } else {
                assert(out[i] == tags[i]);
            }
        }
    }
}

/// After a key is set, looking it up gives the new value, and every other
/// key gives what it gave before.
pub proof fn lemma_upsert_lookup(
    tags: Seq<(Seq<char>, Seq<char>)>,
    k: Seq<char>,
    v: Seq<char>,
    q: Seq<char>,
)
    requires
        distinct_keys(tags),
    ensures
        lookup(upsert(tags, k, v), k) == Some(v),
        q != k ==> lookup(upsert(tags, k, v), q) == lookup(tags, q),
        has_key(upsert(tags, k, v), q) <==> (q == k || has_key(tags, q)),
{
    let out = upsert(tags, k, v);
    lemma_upsert_distinct(tags, k, v);
    let at: int = if has_key(tags, k) {
        position(tags, k)
    } else {
        tags.len() as int
    };
    assert(out[at] == (k, v));
    assert(has_key(out, k));
    let found = position(out, k);
    assert(found == at) by {
        if found != at {
            assert(out[found].0 == out[at].0);
        }
    }
    if q != k {
        if has_key(tags, q) {
            let p = position(tags, q);
            assert(p != at);
            assert(out[p] == tags[p]);
            assert(has_key(out, q));
            let r = position(out, q);
            assert(r == p) by {
                if r != p {
                    assert(out[r].0 == out[p].0);
                }
            }
        } else {
            if has_key(out, q) {
                let r = position(out, q);
                assert(r != at);
                assert(out[r] == tags[r]);
                assert(false);
            }
        }
    }
}

/// Merging into a list with distinct keys gives a list with distinct keys.
pub proof fn lemma_merge_distinct(
    base: Seq<(Seq<char>, Seq<char>)>,
    extra: Seq<(Seq<char>, Seq<char>)>,
)
    requires
        distinct_keys(base),
    ensures
        distinct_keys(merge_tags(base, extra)),
    decreases extra.len(),
{
    if extra.len() > 0 {
        lemma_merge_distinct(base, extra.drop_last());
        lemma_upsert_distinct(
            merge_tags(base, extra.drop_last()),
            extra.last().0,
            extra.last().1,
        );
    }
}

/// The keys of a merged list are exactly the keys of the two lists it was
/// merged from, and a key that the second list does not name keeps the value
/// that the first list gave it.
pub proof fn lemma_merge_keys(
    base: Seq<(Seq<char>, Seq<char>)>,
    extra: Seq<(Seq<char>, Seq<char>)>,
    q: Seq<char>,
)
    requires
        distinct_keys(base),
    ensures
        has_key(merge_tags(base, extra), q) <==> (has_key(base, q) || has_key(extra, q)),
        !has_key(extra, q) ==> lookup(merge_tags(base, extra), q) == lookup(base, q),
    decreases extra.len(),
{
    if extra.len() > 0 {
        let front = extra.drop_last();
        let last = extra.last();
        lemma_merge_keys(base, front, q);
        lemma_merge_distinct(base, front);
        lemma_upsert_lookup(merge_tags(base, front), last.0, last.1, q);
        if has_key(front, q) {
            let i = position(front, q);
            assert(extra[i] == front[i]);
        }
        assert(extra[extra.len() - 1].0 == last.0);
        if has_key(extra, q) && q != last.0 {
            let i = position(extra, q);
            assert(front[i] == extra[i]);
        }
    }
}

/// Of the pairs of the second list that share a key, the last one decides:
/// the merged list gives that key the value of the pair at `j` when no later
/// pair has the same key.
pub proof fn lemma_merge_last_wins(
    base: Seq<(Seq<char>, Seq<char>)>,
    extra: Seq<(Seq<char>, Seq<char>)>,
    j: int,
)
    requires
        distinct_keys(base),
        0 <= j < extra.len(),
        forall|l: int| j < l < extra.len() ==> (#[trigger] extra[l]).0 != extra[j].0,
    ensures
        lookup(merge_tags(base, extra), extra[j].0) == Some(extra[j].1),
    decreases extra.len(),
{
    let front = extra.drop_last();
    let last = extra.last();
    lemma_merge_distinct(base, front);
    lemma_upsert_lookup(merge_tags(base, front), last.0, last.1, extra[j].0);
    if j < extra.len() - 1 {
        assert(front[j] == extra[j]);
        assert forall|l: int| j < l < front.len() implies (#[trigger] front[l]).0 != front[j].0 by {
            assert(front[l] == extra[l]);
        }
        lemma_merge_last_wins(base, front, j);
        assert(extra[extra.len() - 1].0 != extra[j].0);
    }
}

/// Sets the key of `pair` in `tags` to its value: in place where the key is
/// there already, at the end where it is new.
pub fn set_tag(tags: &mut Vec<SettingsPair>, pair: SettingsPair)
    requires
        distinct_keys(pairs_view(old(tags)@)),
    ensures
        pairs_view(final(tags)@) == upsert(pairs_view(old(tags)@), pair.key@, pair.val@),
        distinct_keys(pairs_view(final(tags)@)),
{
    let ghost before = pairs_view(tags@);
    let mut i: usize = 0;
    while i < tags.len()
        invariant
            i <= tags.len(),
            pairs_view(tags@) == before,
            distinct_keys(before),
            tags@ == old(tags)@,
            forall|j: int| 0 <= j < i ==> (#[trigger] before[j]).0 != pair.key@,
        decreases tags.len() - i,
    {
        if tags[i].key.eq(&pair.key) {
            proof {
                assert(before[i as int].0 == pair.key@);
                assert(has_key(before, pair.key@));
                let p = position(before, pair.key@);
                assert(p == i) by {
                    if p != i {
                        assert(before[p].0 == before[i as int].0);
                    }
                }
                lemma_upsert_distinct(before, pair.key@, pair.val@);
            }
            tags.set(i, pair);
            assert(pairs_view(tags@) =~= upsert(before, pair.key@, pair.val@));
            return ;
        }
        i += 1;
    }
    proof {
        assert(!has_key(before, pair.key@));
        lemma_upsert_distinct(before, pair.key@, pair.val@);
    }
    tags.push(pair);
    assert(pairs_view(tags@) =~= upsert(before, pair.key@, pair.val@));
}

/// Sets every pair of `extra` in `tags`, first to last.
pub fn merge_into(tags: &mut Vec<SettingsPair>, extra: &Vec<SettingsPair>)
    requires
        distinct_keys(pairs_view(old(tags)@)),
    ensures
        pairs_view(final(tags)@) == merge_tags(pairs_view(old(tags)@), pairs_view(extra@)),
        distinct_keys(pairs_view(final(tags)@)),
{
    let ghost base = pairs_view(tags@);
    let ghost all = pairs_view(extra@);
    let mut i: usize = 0;
    while i < extra.len()
        invariant
            i <= extra.len(),
            all == pairs_view(extra@),
            distinct_keys(pairs_view(tags@)),
            pairs_view(tags@) == merge_tags(base, all.take(i as int)),
        decreases extra.len() - i,
    {
        proof {
            let next = all.take(i + 1);
            assert(next.drop_last() =~= all.take(i as int));
            assert(next.last() == extra@[i as int]@);
        }
        set_tag(tags, extra[i].clone());
        i += 1;
    }
    assert(all.take(extra.len() as int) =~= all);
}

} // verus!
