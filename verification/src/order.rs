//! Order independence of the totals: reordering the items of a request
//! changes neither the integer total nor the length total.

use vstd::prelude::*;

verus! {

use crate::data::{int_total, item_int, item_len, len_total, wrap32};
use crate::data::Data;
use vstd::seq_lib::{commutative_foldl, lemma_fold_left_permutation};

/// The integer total written as a left fold step.
pub open spec fn int_step() -> spec_fn(int, Data) -> int {
    |acc: int, d: Data| acc + item_int(d)
}

/// The length total written as a left fold step.
pub open spec fn len_step() -> spec_fn(int, Data) -> int {
    |acc: int, d: Data| acc + item_len(d)
}

proof fn lemma_int_total_is_fold(s: Seq<Data>)
    ensures
        s.fold_left(0, int_step()) == int_total(s),
    decreases s.len(),
{
    if s.len() > 0 {
        lemma_int_total_is_fold(s.drop_last());
    }
}

proof fn lemma_len_total_is_fold(s: Seq<Data>)
    ensures
        s.fold_left(0, len_step()) == len_total(s),
    decreases s.len(),
{
    if s.len() > 0 {
        lemma_len_total_is_fold(s.drop_last());
    }
}

/// The exact totals are functions of the items alone, not of their order:
/// two sequences holding the same items equally often have equal totals.
pub proof fn lemma_totals_permutation(s1: Seq<Data>, s2: Seq<Data>)
    requires
        s1.to_multiset() == s2.to_multiset(),
    ensures
        int_total(s1) == int_total(s2),
        len_total(s1) == len_total(s2),
{
    assert(commutative_foldl(int_step()));
    assert(commutative_foldl(len_step()));
    lemma_int_total_is_fold(s1);
    lemma_int_total_is_fold(s2);
    lemma_len_total_is_fold(s1);
    lemma_len_total_is_fold(s2);
    lemma_fold_left_permutation(s1, s2, int_step(), 0);
    lemma_fold_left_permutation(s1, s2, len_step(), 0);
}

/// Order independence of the response itself: the wrapping 32-bit totals
/// the aggregator reports are equal for any two orderings of the same
/// items.
pub proof fn lemma_response_permutation(s1: Seq<Data>, s2: Seq<Data>)
    requires
        s1.to_multiset() == s2.to_multiset(),
    ensures
        wrap32(int_total(s1)) == wrap32(int_total(s2)),
        wrap32(len_total(s1)) == wrap32(len_total(s2)),
{
    lemma_totals_permutation(s1, s2);
}

} // verus!
