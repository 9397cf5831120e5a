//! Facts about `filter_map` on sequences that the laws of the enumeration
//! rest on.

use vstd::prelude::*;
use vstd::seq_lib::group_to_multiset_ensures;

verus! {

/// What an element of a sequence is mapped to is found in the sequence's
/// `filter_map`.
pub proof fn lemma_filter_map_keeps<A, B>(s: Seq<A>, f: spec_fn(A) -> Option<B>, index: int)
    requires
        0 <= index < s.len(),
        f(s[index]) is Some,
    ensures
        s.filter_map(f).contains(f(s[index])->0),
    decreases s.len(),
{
    let rest = s.drop_last();
    let mapped = f(s[index])->0;
    if index == s.len() - 1 {
        let kept = rest.filter_map(f) + seq![mapped];
        assert(kept[kept.len() - 1] == mapped);
    } else {
        lemma_filter_map_keeps(rest, f, index);
        let position = choose|position: int|
            0 <= position < rest.filter_map(f).len() && rest.filter_map(f)[position] == mapped;
        assert(s.filter_map(f)[position] == mapped);
    }
}

/// Every element of a sequence's `filter_map` is what some element of the
/// sequence is mapped to.
pub proof fn lemma_filter_map_origin<A, B>(s: Seq<A>, f: spec_fn(A) -> Option<B>, position: int)
    requires
        0 <= position < s.filter_map(f).len(),
    ensures
        exists|index: int| 0 <= index < s.len() && f(#[trigger] s[index]) == Some(
            s.filter_map(f)[position],
        ),
    decreases s.len(),
{
    let rest = s.drop_last();
    let last = s.last();
    if f(last) is Some && position == rest.filter_map(f).len() {
        assert(f(s[s.len() - 1]) == Some(s.filter_map(f)[position]));
    } else {
        lemma_filter_map_origin(rest, f, position);
        let index = choose|index: int|
            0 <= index < rest.len() && f(#[trigger] rest[index]) == Some(
                rest.filter_map(f)[position],
            );
        assert(f(s[index]) == Some(s.filter_map(f)[position]));
    }
}

/// Taking one element out of a sequence takes what it is mapped to out of
/// the `filter_map`, seen as a multiset.
pub proof fn lemma_filter_map_remove<A, B>(s: Seq<A>, f: spec_fn(A) -> Option<B>, index: int)
    requires
        0 <= index < s.len(),
    ensures
        s.filter_map(f).to_multiset() == (match f(s[index]) {
            Some(mapped) => s.remove(index).filter_map(f).to_multiset().insert(mapped),
            None => s.remove(index).filter_map(f).to_multiset(),
        }),
    decreases s.len(),
{
    broadcast use group_to_multiset_ensures;

    let rest = s.drop_last();
    let last = s.last();
    if index == s.len() - 1 {
        assert(s.remove(index) =~= rest);
        if let Some(mapped) = f(last) {
            assert(rest.filter_map(f) + seq![mapped] =~= rest.filter_map(f).push(mapped));
        }
    } else {
        lemma_filter_map_remove(rest, f, index);
        let shorter = s.remove(index);
        assert(shorter.drop_last() =~= rest.remove(index));
        assert(shorter.last() == last);
        let inner = rest.remove(index).filter_map(f);
        if let Some(kept) = f(last) {
            assert(rest.filter_map(f) + seq![kept] =~= rest.filter_map(f).push(kept));
            assert(inner + seq![kept] =~= inner.push(kept));
            if let Some(mapped) = f(s[index]) {
                assert(inner.to_multiset().insert(mapped).insert(kept) =~= inner.to_multiset().insert(
                    kept,
                ).insert(mapped));
            }
        }
    }
}

/// The `filter_map` of a sequence, seen as a multiset, does not depend on the
/// order of the sequence.
pub proof fn lemma_filter_map_permutation<A, B>(a: Seq<A>, b: Seq<A>, f: spec_fn(A) -> Option<B>)
    requires
        a.to_multiset() == b.to_multiset(),
    ensures
        a.filter_map(f).to_multiset() == b.filter_map(f).to_multiset(),
    decreases a.len(),
{
    broadcast use group_to_multiset_ensures;

    if a.len() == 0 {
        assert(a.to_multiset().len() == a.len());
        assert(b.to_multiset().len() == b.len());
        assert(a =~= b);
    } else {
        let last = a.last();
        assert(a.contains(last));
        assert(b.to_multiset().count(last) > 0);
        let index = b.index_of(last);
        assert(a.drop_last() =~= a.remove(a.len() - 1));
        lemma_filter_map_permutation(a.drop_last(), b.remove(index), f);
        lemma_filter_map_remove(a, f, a.len() - 1);
        lemma_filter_map_remove(b, f, index);
    }
}

/// Mapping every element and keeping what is `Some` is `filter_map` with the
/// mapping itself.
pub proof fn lemma_filter_map_of_mapped<A, B>(
    s: Seq<A>,
    f: spec_fn(A) -> Option<B>,
    mapped: Seq<Option<B>>,
    keep: spec_fn(Option<B>) -> Option<B>,
)
    requires
        mapped.len() == s.len(),
        forall|index: int| 0 <= index < s.len() ==> #[trigger] mapped[index] == f(s[index]),
        forall|kept: Option<B>| #[trigger] keep(kept) == kept,
    ensures
        mapped.filter_map(keep) == s.filter_map(f),
    decreases s.len(),
{
    if s.len() > 0 {
        lemma_filter_map_of_mapped(s.drop_last(), f, mapped.drop_last(), keep);
        assert(mapped.last() == f(s.last()));
    }
}

/// Mapping every element of a sequence is `filter_map` with a mapping that
/// never skips.
pub proof fn lemma_map_values_is_filter_map<A, B>(
    s: Seq<A>,
    f: spec_fn(A) -> B,
    g: spec_fn(A) -> Option<B>,
)
    requires
        forall|element: A| #[trigger] g(element) == Some(f(element)),
    ensures
        s.map_values(f) == s.filter_map(g),
    decreases s.len(),
{
    if s.len() > 0 {
        let rest = s.drop_last();
        lemma_map_values_is_filter_map(rest, f, g);
        assert(s.map_values(f) =~= rest.map_values(f) + seq![f(s.last())]);
    } else {
        assert(s.map_values(f) =~= Seq::empty());
    }
}

/// Replacing an element that is kept by another that is kept replaces what
/// it is mapped to in the `filter_map`, at the place that the elements
/// before it leave for it; nothing else changes.
pub proof fn lemma_filter_map_update<A, B>(
    s: Seq<A>,
    f: spec_fn(A) -> Option<B>,
    index: int,
    element: A,
)
    requires
        0 <= index < s.len(),
        f(s[index]) is Some,
        f(element) is Some,
    ensures
        s.take(index).filter_map(f).len() < s.filter_map(f).len(),
        s.update(index, element).filter_map(f) == s.filter_map(f).update(
            s.take(index).filter_map(f).len() as int,
            f(element)->0,
        ),
    decreases s.len(),
{
    let rest = s.drop_last();
    let last = s.last();
    let changed = s.update(index, element);
    if index == s.len() - 1 {
        assert(changed.drop_last() =~= rest);
        assert(s.take(index) =~= rest);
        assert(changed.filter_map(f) =~= s.filter_map(f).update(
            rest.filter_map(f).len() as int,
            f(element)->0,
        ));
    } else {
        lemma_filter_map_update(rest, f, index, element);
        assert(changed.drop_last() =~= rest.update(index, element));
        assert(changed.last() == last);
        assert(rest.take(index) =~= s.take(index));
        assert(changed.filter_map(f) =~= s.filter_map(f).update(
            s.take(index).filter_map(f).len() as int,
            f(element)->0,
        ));
    }
}

} // verus!
