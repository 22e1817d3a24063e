//! The sort engine: puts the record list in the order of a key.

use vstd::prelude::*;
use vstd::seq_lib::*;
use crate::order::{
    in_order, is_sorted, keeps_tied_order, lemma_in_order_reflexive, lemma_in_order_total,
    lemma_in_order_transitive, precedes, tied_with, ties,
};
use crate::record::ProcessRecord;
use crate::sort_key::SortBy;

verus! {

/// `after` holds the records of `before`, each as often as `before` does,
/// ordered by `key`, and records that tie under `key` have kept their order.
pub open spec fn is_stable_sort_of(
    after: Seq<ProcessRecord>,
    before: Seq<ProcessRecord>,
    key: SortBy,
) -> bool {
    &&& after.len() == before.len()
    &&& after.to_multiset() == before.to_multiset()
    &&& is_sorted(after, key)
    &&& keeps_tied_order(before, after, key)
}

/// The list that results when the record at `from` is taken out of
/// `records` and put back at `to`.
pub open spec fn moved(records: Seq<ProcessRecord>, from: int, to: int) -> Seq<ProcessRecord> {
    records.remove(from).insert(to, records[from])
}

/// Moving a record to the left past records that must all stand after it
/// changes neither what the list holds nor the order among tied records.
proof fn lemma_move_keeps_content(records: Seq<ProcessRecord>, from: int, to: int, key: SortBy)
    requires
        0 <= to <= from < records.len(),
        forall|k: int| to <= k < from ==> !in_order(records[k], records[from], key),
    ensures
        moved(records, from, to).len() == records.len(),
        moved(records, from, to).to_multiset() == records.to_multiset(),
        keeps_tied_order(records, moved(records, from, to), key),
{
    let record = records[from];
    assert(moved(records, from, to).to_multiset() =~= records.to_multiset()) by {
        broadcast use vstd::multiset::group_multiset_axioms;

        to_multiset_remove(records, from);
        to_multiset_insert(records.remove(from), to, record);
        to_multiset_contains(records, record);
        assert(records.contains(record));
    }
    let head = records.subrange(0, to);
    let passed = records.subrange(to, from);
    let one = Seq::<ProcessRecord>::empty().push(record);
    let tail = records.subrange(from + 1, records.len() as int);
    assert(records =~= head + passed + one + tail);
    assert(moved(records, from, to) =~= head + one + passed + tail);
    assert forall|pivot: ProcessRecord| #[trigger]
        moved(records, from, to).filter(tied_with(pivot, key)) == records.filter(
            tied_with(pivot, key),
        ) by {
        let tied = tied_with(pivot, key);
        Seq::filter_distributes_over_add(head + passed + one, tail, tied);
        Seq::filter_distributes_over_add(head + passed, one, tied);
        Seq::filter_distributes_over_add(head, passed, tied);
        Seq::filter_distributes_over_add(head + one + passed, tail, tied);
        Seq::filter_distributes_over_add(head + one, passed, tied);
        Seq::filter_distributes_over_add(head, one, tied);
        if tied(record) {
            assert forall|k: int| 0 <= k < passed.len() implies !tied(#[trigger] passed[k]) by {
                if tied(passed[k]) {
                    lemma_in_order_transitive(passed[k], pivot, record, key);
                }
            }
            assert(passed.all(|x: ProcessRecord| !tied(x)));
            passed.lemma_all_neg_filter_empty(tied);
            assert(passed.filter(tied) =~= Seq::empty());
        } else {
            assert(one.all(|x: ProcessRecord| !tied(x)));
            one.lemma_all_neg_filter_empty(tied);
            assert(one.filter(tied) =~= Seq::empty());
        }
        assert((head + one + passed + tail).filter(tied) =~= (head + passed + one + tail).filter(
            tied,
        ));
    }
}

/// Moving the record that follows a sorted stretch to the place where its
/// left neighbour may stand before it, and everything it passed must stand
/// after it, makes the stretch one record longer and leaves it sorted.
proof fn lemma_move_extends_sorted(records: Seq<ProcessRecord>, from: int, to: int, key: SortBy)
    requires
        0 <= to <= from < records.len(),
        is_sorted(records.take(from), key),
        forall|k: int| to <= k < from ==> !in_order(records[k], records[from], key),
        to > 0 ==> in_order(records[to - 1], records[from], key),
    ensures
        is_sorted(moved(records, from, to).take(from + 1), key),
{
    let record = records[from];
    let sorted = records.take(from);
    let result = moved(records, from, to).take(from + 1);
    assert forall|i: int, j: int| 0 <= i < j < result.len() implies in_order(
        result[i],
        result[j],
        key,
    ) by {
        if j < to {
            assert(result[i] == sorted[i] && result[j] == sorted[j]);
        } else if j == to {
            assert(result[i] == sorted[i]);
            if i < to - 1 {
                assert(in_order(sorted[i], sorted[to - 1], key));
                lemma_in_order_transitive(sorted[i], sorted[to - 1], record, key);
            }
        } else if i < to {
            assert(result[i] == sorted[i] && result[j] == sorted[j - 1]);
        } else if i == to {
            assert(result[j] == records[j - 1]);
            lemma_in_order_total(records[j - 1], record, key);
        } else {
            assert(result[i] == sorted[i - 1] && result[j] == sorted[j - 1]);
        }
    }
}

/// Two sorted lists of one length in which, whatever record is taken as
/// pivot, the records tied with it form the same sequence, are one list.
proof fn lemma_sorted_lists_with_same_ties_are_equal(
    first: Seq<ProcessRecord>,
    second: Seq<ProcessRecord>,
    key: SortBy,
)
    requires
        first.len() == second.len(),
        is_sorted(first, key),
        is_sorted(second, key),
        keeps_tied_order(first, second, key),
    ensures
        first == second,
    decreases first.len(),
{
    if first.len() == 0 {
        assert(first =~= second);
    } else {
        let a = first.last();
        let c = second.last();
        let first_rest = first.drop_last();
        let second_rest = second.drop_last();
        assert(first =~= first_rest.push(a));
        assert(second =~= second_rest.push(c));
        assert forall|pivot: ProcessRecord|
            #![trigger first.filter(tied_with(pivot, key))]
            #![trigger second.filter(tied_with(pivot, key))]
            first.filter(tied_with(pivot, key)) == (if ties(a, pivot, key) {
                first_rest.filter(tied_with(pivot, key)).push(a)
            } else {
                first_rest.filter(tied_with(pivot, key))
            }) && second.filter(tied_with(pivot, key)) == (if ties(c, pivot, key) {
                second_rest.filter(tied_with(pivot, key)).push(c)
            } else {
                second_rest.filter(tied_with(pivot, key))
            }) by {
            first_rest.lemma_filter_push(a, tied_with(pivot, key));
            second_rest.lemma_filter_push(c, tied_with(pivot, key));
        }
        lemma_in_order_reflexive(a, key);
        lemma_in_order_reflexive(c, key);
        assert(in_order(a, c, key)) by {
            let tied = tied_with(a, key);
            assert(second.filter(tied) == first.filter(tied));
            assert(first.filter(tied).last() == a);
            assert(second.filter(tied).contains(a));
            second.lemma_filter_contains_rev(tied, a);
            let j = choose|j: int| 0 <= j < second.len() && second[j] == a;
            if j < second.len() - 1 {
                assert(in_order(second[j], second[second.len() - 1], key));
            }
        }
        assert(in_order(c, a, key)) by {
            let tied = tied_with(c, key);
            assert(second.filter(tied) == first.filter(tied));
            assert(second.filter(tied).last() == c);
            assert(first.filter(tied).contains(c));
            first.lemma_filter_contains_rev(tied, c);
            let j = choose|j: int| 0 <= j < first.len() && first[j] == c;
            if j < first.len() - 1 {
                assert(in_order(first[j], first[first.len() - 1], key));
            }
        }
        assert(a == c) by {
            let tied = tied_with(a, key);
            assert(second.filter(tied) == first.filter(tied));
            assert(first.filter(tied).last() == a);
            assert(second.filter(tied).last() == c);
        }
        assert forall|pivot: ProcessRecord| #[trigger]
            second_rest.filter(tied_with(pivot, key)) == first_rest.filter(
                tied_with(pivot, key),
            ) by {
            let tied = tied_with(pivot, key);
            assert(second.filter(tied) == first.filter(tied));
            if ties(a, pivot, key) {
                assert(first_rest.filter(tied) =~= first.filter(tied).drop_last());
                assert(second_rest.filter(tied) =~= second.filter(tied).drop_last());
            }
        }
        assert(is_sorted(first_rest, key)) by {
            assert forall|i: int, j: int| 0 <= i < j < first_rest.len() implies in_order(
                first_rest[i],
                first_rest[j],
                key,
            ) by {
                assert(in_order(first[i], first[j], key));
            }
        }
        assert(is_sorted(second_rest, key)) by {
            assert forall|i: int, j: int| 0 <= i < j < second_rest.len() implies in_order(
                second_rest[i],
                second_rest[j],
                key,
            ) by {
                assert(in_order(second[i], second[j], key));
            }
        }
        lemma_sorted_lists_with_same_ties_are_equal(first_rest, second_rest, key);
    }
}

/// A list has one stable sort by a key only: two lists that both are one
/// are the same list.
pub proof fn lemma_stable_sort_is_unique(
    before: Seq<ProcessRecord>,
    first: Seq<ProcessRecord>,
    second: Seq<ProcessRecord>,
    key: SortBy,
)
    requires
        is_stable_sort_of(first, before, key),
        is_stable_sort_of(second, before, key),
    ensures
        first == second,
{
    assert forall|pivot: ProcessRecord| #[trigger]
        second.filter(tied_with(pivot, key)) == first.filter(tied_with(pivot, key)) by {
        assert(first.filter(tied_with(pivot, key)) == before.filter(tied_with(pivot, key)));
    }
    lemma_sorted_lists_with_same_ties_are_equal(first, second, key);
}

/// Sorting a list that is sorted already, by the same key, changes
/// nothing.
pub proof fn lemma_sorting_sorted_list_changes_nothing(
    before: Seq<ProcessRecord>,
    after: Seq<ProcessRecord>,
    key: SortBy,
)
    requires
        is_sorted(before, key),
        is_stable_sort_of(after, before, key),
    ensures
        after == before,
{
    lemma_sorted_lists_with_same_ties_are_equal(before, after, key);
}

/// Sorts `records` by `key`, leaving records that tie in the order they
/// came in.
pub fn sort_records(records: &mut Vec<ProcessRecord>, key: SortBy)
    ensures
        is_stable_sort_of(final(records)@, old(records)@, key),
{
    let ghost before = records@;
    let n = records.len();
    let mut i: usize = 0;
    while i < n
        invariant
            i <= n,
            records.len() == n,
            before.len() == n,
            records@.to_multiset() == before.to_multiset(),
            is_sorted(records@.take(i as int), key),
            keeps_tied_order(before, records@, key),
        decreases n - i,
    {
        let ghost unmoved = records@;
        let record = records.remove(i);
        let mut to: usize = i;
        while to > 0 && !precedes(&records[to - 1], &record, key)
            invariant
                to <= i < n,
                unmoved.len() == n,
                records@ == unmoved.remove(i as int),
                record == unmoved[i as int],
                forall|k: int| to <= k < i ==> !in_order(unmoved[k], record, key),
            decreases to,
        {
            to -= 1;
        }
        records.insert(to, record);
        proof {
            assert(records@ == moved(unmoved, i as int, to as int));
            lemma_move_keeps_content(unmoved, i as int, to as int, key);
            lemma_move_extends_sorted(unmoved, i as int, to as int, key);
            assert forall|pivot: ProcessRecord| #[trigger]
                records@.filter(tied_with(pivot, key)) == before.filter(
                    tied_with(pivot, key),
                ) by {
                assert(unmoved.filter(tied_with(pivot, key)) == before.filter(
                    tied_with(pivot, key),
                ));
            }
        }
        i += 1;
    }
    assert(records@.take(n as int) =~= records@);
}

} // verus!
