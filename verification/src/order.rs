//! The order of texts, and sorting by it.
use vstd::prelude::*;

use crate::text::{chars_of, texts};

verus! {

broadcast use vstd::string::group_string_axioms;

/// Whether `a` comes before `b`: the first character that differs decides, and a text comes
/// before its extensions. This is also the order of the texts' UTF-8 bytes.
pub open spec fn text_less(a: Seq<char>, b: Seq<char>) -> bool
    decreases a.len(),
{
    if b.len() == 0 {
        false
    } else if a.len() == 0 {
        true
    } else if a[0] != b[0] {
        a[0] < b[0]
    } else {
        text_less(a.drop_first(), b.drop_first())
    }
}

/// No text comes before itself, and of two different texts exactly one comes first.
pub proof fn text_less_is_total(a: Seq<char>, b: Seq<char>)
    ensures
        a == b ==> !text_less(a, b),
        a != b ==> text_less(a, b) != text_less(b, a),
    decreases a.len(),
{
    if a.len() > 0 && b.len() > 0 {
        text_less_is_total(a.drop_first(), b.drop_first());
        if a[0] == b[0] && a.drop_first() == b.drop_first() {
            assert(a =~= seq![a[0]] + a.drop_first());
            assert(b =~= seq![b[0]] + b.drop_first());
        }
    } else if a.len() == 0 && b.len() == 0 {
        assert(a =~= b);
    }
}

/// What comes before a text comes before everything behind it.
pub proof fn text_less_is_transitive(a: Seq<char>, b: Seq<char>, c: Seq<char>)
    requires
        text_less(a, b),
        text_less(b, c),
    ensures
        text_less(a, c),
    decreases a.len(),
{
    if a.len() > 0 && a[0] == b[0] && b[0] == c[0] {
        text_less_is_transitive(a.drop_first(), b.drop_first(), c.drop_first());
    }
}

/// Whether `a` comes before `b`.
pub fn is_less(a: &str, b: &str) -> (less: bool)
    ensures
        less == text_less(a@, b@),
{
    let left = chars_of(a);
    let right = chars_of(b);
    let mut i: usize = 0;
    assert(left@.skip(0) =~= a@ && right@.skip(0) =~= b@);
    while i < left.len() && i < right.len()
        invariant
            i <= left@.len(),
            i <= right@.len(),
            text_less(a@, b@) == text_less(left@.skip(i as int), right@.skip(i as int)),
        decreases left@.len() - i,
    {
        if left[i] != right[i] {
            return left[i] < right[i];
        }
        assert(left@.skip(i as int).drop_first() =~= left@.skip(i + 1));
        assert(right@.skip(i as int).drop_first() =~= right@.skip(i + 1));
        i += 1;
    }
    i < right.len()
}

/// Whether the entry at `i` comes before the one at `j`: by name, and among equal names by
/// position.
pub open spec fn entry_less(names: Seq<Seq<char>>, i: int, j: int) -> bool {
    text_less(names[i], names[j]) || (names[i] == names[j] && i < j)
}

/// The positions of `names` in the order of the names; equal names keep their order.
pub open spec fn is_ordering(names: Seq<Seq<char>>, ordering: Seq<usize>) -> bool {
    &&& ordering.len() == names.len()
    &&& ordering.no_duplicates()
    &&& forall|k: int| 0 <= k < ordering.len() ==> #[trigger] ordering[k] < names.len()
    &&& in_order(names, ordering)
}

/// Every position comes before those behind it.
pub open spec fn in_order(names: Seq<Seq<char>>, run: Seq<usize>) -> bool {
    forall|a: int, b: int|
        0 <= a < b < run.len() ==> entry_less(names, #[trigger] run[a] as int, #[trigger] run[b] as int)
}

proof fn entry_less_is_transitive(names: Seq<Seq<char>>, i: int, j: int, k: int)
    requires
        entry_less(names, i, j),
        entry_less(names, j, k),
    ensures
        entry_less(names, i, k),
{
    if text_less(names[i], names[j]) && text_less(names[j], names[k]) {
        text_less_is_transitive(names[i], names[j], names[k]);
    }
}

/// A run of positions `from..to` in order.
spec fn run_of(names: Seq<Seq<char>>, from: int, to: int, run: Seq<usize>) -> bool {
    &&& run.len() == to - from
    &&& in_order(names, run)
    &&& forall|k: int| 0 <= k < run.len() ==> from <= #[trigger] run[k] < to
}

/// Merges two adjacent runs.
fn merge(names: &Vec<String>, from: usize, mid: usize, to: usize, left: &Vec<usize>, right: &Vec<
    usize,
>) -> (merged: Vec<usize>)
    requires
        from <= mid <= to <= names@.len(),
        run_of(texts(names@), from as int, mid as int, left@),
        run_of(texts(names@), mid as int, to as int, right@),
    ensures
        run_of(texts(names@), from as int, to as int, merged@),
{
    let ghost keys = texts(names@);
    let mut merged: Vec<usize> = Vec::new();
    let mut i: usize = 0;
    let mut j: usize = 0;
    while i < left.len() || j < right.len()
        invariant
            keys == texts(names@),
            from <= mid <= to <= names@.len(),
            run_of(keys, from as int, mid as int, left@),
            run_of(keys, mid as int, to as int, right@),
            i <= left@.len(),
            j <= right@.len(),
            merged@.len() == i + j,
            in_order(keys, merged@),
            forall|k: int| 0 <= k < merged@.len() ==> from <= #[trigger] merged@[k] < to,
            forall|k: int, l: int|
                0 <= k < merged@.len() && i <= l < left@.len() ==> entry_less(
                    keys,
                    #[trigger] merged@[k] as int,
                    #[trigger] left@[l] as int,
                ),
            forall|k: int, l: int|
                0 <= k < merged@.len() && j <= l < right@.len() ==> entry_less(
                    keys,
                    #[trigger] merged@[k] as int,
                    #[trigger] right@[l] as int,
                ),
        decreases left@.len() - i + right@.len() - j,
    {
        let take_right: bool = if i == left.len() {
            true
        } else if j == right.len() {
            false
        } else {
            is_less(names[right[j]].as_str(), names[left[i]].as_str())
        };
        let ghost before = merged@;
        if take_right {
            let next: usize = right[j];
            proof {
                if i < left@.len() {
                    assert(entry_less(keys, next as int, left@[i as int] as int));
                    assert forall|l: int| i <= l < left@.len() implies entry_less(
                        keys,
                        next as int,
                        #[trigger] left@[l] as int,
                    ) by {
                        if l > i {
                            entry_less_is_transitive(
                                keys,
                                next as int,
                                left@[i as int] as int,
                                left@[l] as int,
                            );
                        }
                    }
                }
            }
            merged.push(next);
            j += 1;
        } else {
            let next: usize = left[i];
            proof {
                if j < right@.len() {
                    text_less_is_total(keys[next as int], keys[right@[j as int] as int]);
                    assert(next < mid <= right@[j as int]);
                    assert(entry_less(keys, next as int, right@[j as int] as int));
                    assert forall|l: int| j <= l < right@.len() implies entry_less(
                        keys,
                        next as int,
                        #[trigger] right@[l] as int,
                    ) by {
                        if l > j {
                            entry_less_is_transitive(
                                keys,
                                next as int,
                                right@[j as int] as int,
                                right@[l] as int,
                            );
                        }
                    }
                }
            }
            merged.push(next);
            i += 1;
        }
        assert(forall|k: int| 0 <= k < before.len() ==> merged@[k] == before[k]);
    }
    merged
}

/// Sorts the positions `from..to`.
fn sort_run(names: &Vec<String>, from: usize, to: usize) -> (run: Vec<usize>)
    requires
        from <= to <= names@.len(),
    ensures
        run_of(texts(names@), from as int, to as int, run@),
    decreases to - from,
{
    let mut run: Vec<usize> = Vec::new();
    if from == to {
        return run;
    }
    if to - from == 1 {
        run.push(from);
        return run;
    }
    let mid: usize = from + (to - from) / 2;
    let left = sort_run(names, from, mid);
    let right = sort_run(names, mid, to);
    merge(names, from, mid, to, &left, &right)
}

/// The positions of `names` in the order of the names; equal names keep their order.
pub fn ordering(names: &Vec<String>) -> (out: Vec<usize>)
    ensures
        is_ordering(texts(names@), out@),
{
    let out = sort_run(names, 0, names.len());
    proof {
        let keys = texts(names@);
        assert forall|a: int, b: int| 0 <= a < b < out@.len() implies out@[a] != out@[b] by {
            text_less_is_total(keys[out@[a] as int], keys[out@[b] as int]);
        }
        assert(out@.no_duplicates());
    }
    out
}

/// Every position occurs in an ordering.
pub proof fn ordering_covers(names: Seq<Seq<char>>, ordering: Seq<usize>, j: int)
    requires
        is_ordering(names, ordering),
        0 <= j < names.len(),
    ensures
        exists|k: int| 0 <= k < ordering.len() && #[trigger] ordering[k] == j,
{
    let n = names.len() as int;
    let positions = ordering.map_values(|i: usize| i as int);
    assert(positions.no_duplicates());
    positions.unique_seq_to_set();
    vstd::set_lib::lemma_int_range(0, n);
    let range = vstd::set_lib::set_int_range(0, n);
    assert(positions.to_set().subset_of(range)) by {
        assert forall|i: int| positions.to_set().contains(i) implies range.contains(i) by {
            let k = choose|k: int| 0 <= k < positions.len() && positions[k] == i;
            assert(ordering[k] == i);
        }
    }
    vstd::set_lib::lemma_len_subset(positions.to_set(), range);
    vstd::set_lib::lemma_subset_equality(positions.to_set(), range);
    assert(positions.to_set().contains(j));
    let k = choose|k: int| 0 <= k < positions.len() && positions[k] == j;
    assert(ordering[k] == j);
}

/// There is one ordering only: sorting the same names always gives the same result.
pub proof fn ordering_is_unique(names: Seq<Seq<char>>, a: Seq<usize>, b: Seq<usize>)
    requires
        is_ordering(names, a),
        is_ordering(names, b),
    ensures
        a == b,
{
    assert forall|k: int| 0 <= k < a.len() implies a[k] == b[k] by {
        orderings_agree(names, a, b, k);
    }
    assert(a =~= b);
}

proof fn orderings_agree(names: Seq<Seq<char>>, a: Seq<usize>, b: Seq<usize>, k: int)
    requires
        is_ordering(names, a),
        is_ordering(names, b),
        0 <= k < a.len(),
    ensures
        a[k] == b[k],
    decreases k,
{
    assert forall|m: int| 0 <= m < k implies a[m] == b[m] by {
        orderings_agree(names, a, b, m);
    }
    if a[k] != b[k] {
        ordering_covers(names, b, a[k] as int);
        ordering_covers(names, a, b[k] as int);
        let p = choose|p: int| 0 <= p < b.len() && #[trigger] b[p] == a[k] as int;
        let q = choose|q: int| 0 <= q < a.len() && #[trigger] a[q] == b[k] as int;
        assert(p > k) by {
            if p < k {
                assert(a[p] == b[p]);
            }
        }
        assert(q > k) by {
            if q < k {
                assert(a[q] == b[q]);
            }
        }
        assert(entry_less(names, b[k] as int, b[p] as int));
        assert(entry_less(names, a[k] as int, a[q] as int));
        text_less_is_total(names[a[k] as int], names[b[k] as int]);
    }
}

/// In an ordering, a name that occurs at two positions also occurs at the position that stands
/// directly before the later of them.
pub(crate) proof fn repeats_are_adjacent(
    names: Seq<Seq<char>>,
    ordering: Seq<usize>,
    i: int,
    j: int,
) -> (k: int)
    requires
        is_ordering(names, ordering),
        0 <= i < j < names.len(),
        names[i] == names[j],
    ensures
        0 < k < ordering.len(),
        ordering[k] == j,
        names[ordering[k - 1] as int] == names[j],
{
    ordering_covers(names, ordering, i);
    ordering_covers(names, ordering, j);
    let p = choose|p: int| 0 <= p < ordering.len() && #[trigger] ordering[p] == i;
    let k = choose|k: int| 0 <= k < ordering.len() && #[trigger] ordering[k] == j;
    text_less_is_total(names[i], names[j]);
    assert(p < k) by {
        if k < p {
            assert(entry_less(names, ordering[k] as int, ordering[p] as int));
        }
    }
    if p < k - 1 {
        let m = ordering[k - 1] as int;
        assert(entry_less(names, i, m));
        assert(entry_less(names, m, j));
        text_less_is_total(names[i], names[m]);
        text_less_is_total(names[m], names[j]);
    }
    k
}

} // verus!
