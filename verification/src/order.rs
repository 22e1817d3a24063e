//! What it means for the record list to be ordered by a key.

use vstd::prelude::*;
use crate::record::{ProcessRecord, cpu_rank, rank_of_bits};
use crate::sort_key::SortBy;
use crate::text::{lex_le, text_le, lemma_lex_le_reflexive, lemma_lex_le_total, lemma_lex_le_transitive};

verus! {

/// `a` may stand before `b` in a list ordered by `key`: identifiers, CPU
/// shares and memory sizes run downwards, names run upwards.
pub open spec fn in_order(a: ProcessRecord, b: ProcessRecord, key: SortBy) -> bool {
    match key {
        SortBy::Pid => a.id >= b.id,
        SortBy::Name => lex_le(a.name@, b.name@),
        SortBy::Cpu => rank_of_bits(a.cpu_bits) >= rank_of_bits(b.cpu_bits),
        SortBy::Memory => a.memory_bytes >= b.memory_bytes,
    }
}

/// Neither record has to stand before the other: the key does not tell them
/// apart.
pub open spec fn ties(a: ProcessRecord, b: ProcessRecord, key: SortBy) -> bool {
    in_order(a, b, key) && in_order(b, a, key)
}

/// Every record of `records` may stand before every later one.
pub open spec fn is_sorted(records: Seq<ProcessRecord>, key: SortBy) -> bool {
    forall|i: int, j: int| 0 <= i < j < records.len() ==> in_order(records[i], records[j], key)
}

/// The records that `key` does not tell apart from `pivot`.
pub open spec fn tied_with(pivot: ProcessRecord, key: SortBy) -> spec_fn(ProcessRecord) -> bool {
    |record: ProcessRecord| ties(record, pivot, key)
}

/// Records that tie under `key` stand in `after` in the order they had in
/// `before`: whatever record is taken as pivot, those tied with it form the
/// same sequence in both lists.
pub open spec fn keeps_tied_order(
    before: Seq<ProcessRecord>,
    after: Seq<ProcessRecord>,
    key: SortBy,
) -> bool {
    forall|pivot: ProcessRecord| #[trigger]
        after.filter(tied_with(pivot, key)) == before.filter(tied_with(pivot, key))
}

/// Any record may stand before itself.
pub proof fn lemma_in_order_reflexive(a: ProcessRecord, key: SortBy)
    ensures
        in_order(a, a, key),
{
    lemma_lex_le_reflexive(a.name@);
}

/// Of two records, one may stand before the other.
pub proof fn lemma_in_order_total(a: ProcessRecord, b: ProcessRecord, key: SortBy)
    ensures
        in_order(a, b, key) || in_order(b, a, key),
{
    lemma_lex_le_total(a.name@, b.name@);
}

/// If `a` may stand before `b` and `b` before `c`, then `a` may stand
/// before `c`.
pub proof fn lemma_in_order_transitive(
    a: ProcessRecord,
    b: ProcessRecord,
    c: ProcessRecord,
    key: SortBy,
)
    requires
        in_order(a, b, key),
        in_order(b, c, key),
    ensures
        in_order(a, c, key),
{
    if key == SortBy::Name {
        lemma_lex_le_transitive(a.name@, b.name@, c.name@);
    }
}

/// In a sorted list each record may stand before its right neighbour, and a
/// list in which that holds throughout is sorted.
pub proof fn lemma_sorted_iff_neighbours_in_order(records: Seq<ProcessRecord>, key: SortBy)
    ensures
        is_sorted(records, key) <==> forall|i: int|
            0 <= i && i + 1 < records.len() ==> in_order(
                #[trigger] records[i],
                records[i + 1],
                key,
            ),
{
    if forall|i: int|
        0 <= i && i + 1 < records.len() ==> in_order(#[trigger] records[i], records[i + 1], key) {
        assert forall|i: int, j: int| 0 <= i < j < records.len() implies in_order(
            records[i],
            records[j],
            key,
        ) by {
            lemma_neighbours_chain(records, key, i, j);
        }
    }
}

proof fn lemma_neighbours_chain(records: Seq<ProcessRecord>, key: SortBy, i: int, j: int)
    requires
        0 <= i < j < records.len(),
        forall|k: int|
            0 <= k && k + 1 < records.len() ==> in_order(#[trigger] records[k], records[k + 1], key),
    ensures
        in_order(records[i], records[j], key),
    decreases j - i,
{
    if i + 1 < j {
        lemma_neighbours_chain(records, key, i, j - 1);
        assert(in_order(records[j - 1], records[j - 1 + 1], key));
        lemma_in_order_transitive(records[i], records[j - 1], records[j], key);
    } else {
        assert(in_order(records[i], records[i + 1], key));
    }
}

/// Decides whether `a` may stand before `b` under `key`.
pub fn precedes(a: &ProcessRecord, b: &ProcessRecord, key: SortBy) -> (r: bool)
    ensures
        r == in_order(*a, *b, key),
{
    match key {
        SortBy::Pid => a.id >= b.id,
        SortBy::Name => text_le(a.name.as_str(), b.name.as_str()),
        SortBy::Cpu => cpu_rank(a.cpu_bits) >= cpu_rank(b.cpu_bits),
        SortBy::Memory => a.memory_bytes >= b.memory_bytes,
    }
}

} // verus!
