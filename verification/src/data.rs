//! The item type, the request and response types, and the aggregator.

use vstd::prelude::*;

verus! {

use vstd::arithmetic::div_mod::{
    lemma_add_mod_noop_right, lemma_mod_bound, lemma_mod_sub_multiples_vanish, lemma_small_mod,
};
use vstd::utf8::encode_utf8;

/// A single element of a request: either an unsigned 32-bit integer or a
/// piece of text. Raw input values of any other shape are rejected before a
/// value of this type exists; see [`crate::decode`].
#[derive(Debug, PartialEq, Eq)]
pub enum Data {
    Int(u32),
    Text(String),
}

/// An ordered list of items to aggregate over. List order carries no
/// meaning: the totals are the same for any reordering (see
/// [`crate::order`]).
#[derive(Debug, PartialEq, Eq)]
pub struct DataRequest {
    pub data: Vec<Data>,
}

/// The two totals computed from a request: the low 32 bits of the sum of
/// the byte lengths of the text items, and the low 32 bits of the sum of
/// the integer items.
#[derive(Debug, Clone, Copy, PartialEq, Eq, Structural)]
pub struct DataResponse {
    pub string_len: u32,
    pub int_sum: u32,
}

/// Contribution of one item to the integer total.
pub open spec fn item_int(d: Data) -> int {
    match d {
        Data::Int(n) => n as int,
        Data::Text(_) => 0,
    }
}

/// Contribution of one item to the length total: the byte length of its
/// text in UTF-8 (the value `str::len` reports), not its codepoint count.
/// An integer item contributes nothing.
pub open spec fn item_len(d: Data) -> int {
    match d {
        Data::Int(_) => 0,
        Data::Text(s) => (encode_utf8(s@).len() as usize) as int,
    }
}

/// The exact (unbounded) sum of the integer items of a sequence.
pub open spec fn int_total(s: Seq<Data>) -> int
    decreases s.len(),
{
    if s.len() == 0 {
        0
    } else {
        int_total(s.drop_last()) + item_int(s.last())
    }
}

/// The exact (unbounded) sum of the text byte lengths of a sequence.
pub open spec fn len_total(s: Seq<Data>) -> int
    decreases s.len(),
{
    if s.len() == 0 {
        0
    } else {
        len_total(s.drop_last()) + item_len(s.last())
    }
}

/// Reduction modulo 2^32: the value a 32-bit accumulator holds after
/// wrapping additions whose exact sum is `n`.
pub open spec fn wrap32(n: int) -> int {
    n % 0x1_0000_0000
}

/// Both totals are sums of non-negative contributions.
pub proof fn lemma_totals_nonneg(s: Seq<Data>)
    ensures
        int_total(s) >= 0,
        len_total(s) >= 0,
    decreases s.len(),
{
    if s.len() > 0 {
        lemma_totals_nonneg(s.drop_last());
    }
}

/// One wrapping step: adding a contribution `b` to an accumulator that
/// holds `wrap32(a)` leaves it at `wrap32(a + b)`, whether or not the
/// addition wrapped.
proof fn lemma_wrap32_step(a: int, b: int)
    requires
        0 <= a,
        0 <= b,
    ensures
        0 <= wrap32(a) < 0x1_0000_0000,
        0 <= wrap32(b) < 0x1_0000_0000,
        wrap32(a) + wrap32(b) <= u32::MAX ==> wrap32(a) + wrap32(b) == wrap32(a + b),
        wrap32(a) + wrap32(b) > u32::MAX ==> wrap32(a) + wrap32(b) - 0x1_0000_0000 == wrap32(
            a + b,
        ),
{
    let m: int = 0x1_0000_0000;
    lemma_mod_bound(a, m);
    lemma_mod_bound(b, m);
    assert((a % m + b % m) % m == (a + b) % m) by {
        lemma_add_mod_noop_right(a % m, b, m);
        lemma_add_mod_noop_right(b, a, m);
    }
    if a % m + b % m < m {
        lemma_small_mod((a % m + b % m) as nat, m as nat);
    } else {
        lemma_mod_sub_multiples_vanish(a % m + b % m, m);
        lemma_small_mod((a % m + b % m - m) as nat, m as nat);
    }
}

/// Appending one item extends each total by that item's contribution.
proof fn lemma_total_push(s: Seq<Data>, d: Data)
    ensures
        int_total(s.push(d)) == int_total(s) + item_int(d),
        len_total(s.push(d)) == len_total(s) + item_len(d),
{
    assert(s.push(d).drop_last() =~= s);
    assert(s.push(d).last() == d);
}

/// The aggregator: one pass over the items, summing integer items into
/// `int_sum` and text byte lengths into `string_len`, both as wrapping
/// 32-bit sums starting from zero.
pub fn process_data(request: &DataRequest) -> (r: DataResponse)
    ensures
        r.int_sum as int == wrap32(int_total(request.data@)),
        r.string_len as int == wrap32(len_total(request.data@)),
{
    let mut string_len: u32 = 0;
    let mut int_sum: u32 = 0;
    let mut i: usize = 0;
    proof {
        assert(request.data@.take(0) =~= Seq::<Data>::empty());
    }
    while i < request.data.len()
        invariant
            i <= request.data.len(),
            int_sum as int == wrap32(int_total(request.data@.take(i as int))),
            string_len as int == wrap32(len_total(request.data@.take(i as int))),
        decreases request.data.len() - i,
    {
        let ghost prefix = request.data@.take(i as int);
        let ghost item = request.data@[i as int];
        proof {
            assert(request.data@.take(i + 1) =~= prefix.push(item));
            lemma_total_push(prefix, item);
            lemma_totals_nonneg(prefix);
        }
        match &request.data[i] {
            Data::Text(s) => {
                let n: usize = s.as_str().len();
                let n64: u64 = n as u64;
                let rem: u64 = n64 % 0x1_0000_0000u64;
                let n32: u32 = rem as u32;
                proof {
                    lemma_wrap32_step(len_total(prefix), n as int);
                }
                string_len = string_len.wrapping_add(n32);
            },
            Data::Int(v) => {
                proof {
                    lemma_wrap32_step(int_total(prefix), *v as int);
                    lemma_small_mod(*v as nat, 0x1_0000_0000nat);
                }
                int_sum = int_sum.wrapping_add(*v);
            },
        }
        i = i + 1;
    }
    proof {
        assert(request.data@.take(request.data.len() as int) =~= request.data@);
    }
    DataResponse { string_len, int_sum }
}

} // verus!
