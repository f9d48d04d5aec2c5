//! Classification of raw input values into items, and rejection of values
//! that fit neither shape.

use vstd::prelude::*;

verus! {

use crate::data::{Data, DataRequest, DataResponse, int_total, len_total, process_data, wrap32};

/// A raw input value as the transport hands it over, before
/// classification: an unsigned integer, a piece of text, or a value of any
/// other shape (a negative or fractional number, a boolean, null, a nested
/// list or record), which no item can represent.
#[derive(Debug, PartialEq, Eq)]
pub enum RawValue {
    Uint(u64),
    Text(String),
    Other,
}

/// Rejection of an input whose values do not all fit the request shape.
#[derive(Debug, Clone, Copy, PartialEq, Eq, Structural)]
pub struct DecodeError;

/// Whether a raw value can be classified: an unsigned integer within
/// 32-bit range, or any text.
pub open spec fn raw_fits(r: RawValue) -> bool {
    match r {
        RawValue::Uint(n) => n <= u32::MAX,
        RawValue::Text(_) => true,
        RawValue::Other => false,
    }
}

/// The item a classifiable raw value stands for.
pub open spec fn classified(r: RawValue) -> Data
    recommends
        raw_fits(r),
{
    match r {
        RawValue::Uint(n) => Data::Int(n as u32),
        RawValue::Text(s) => Data::Text(s),
        RawValue::Other => vstd::pervasive::arbitrary(),
    }
}

/// Whether every value of a raw list can be classified.
pub open spec fn all_fit(s: Seq<RawValue>) -> bool {
    forall|i: int| 0 <= i < s.len() ==> raw_fits(s[i])
}

/// Classify one raw value: an unsigned integer in 32-bit range becomes an
/// integer item, text becomes a text item, any other value is rejected.
pub fn classify(r: RawValue) -> (res: Result<Data, DecodeError>)
    ensures
        res is Ok <==> raw_fits(r),
        raw_fits(r) ==> res == Ok::<Data, DecodeError>(classified(r)),
{
    match r {
        RawValue::Uint(n) => {
            if n <= u32::MAX as u64 {
                Ok(Data::Int(n as u32))
            } else {
                Err(DecodeError)
            }
        },
        RawValue::Text(s) => Ok(Data::Text(s)),
        RawValue::Other => Err(DecodeError),
    }
}

/// Decode a whole raw list: classify every value in order. The result is a
/// request exactly when every value fits; one unclassifiable value rejects
/// the whole list.
pub fn decode_request(items: Vec<RawValue>) -> (res: Result<DataRequest, DecodeError>)
    ensures
        res is Ok <==> all_fit(items@),
        res is Ok ==> res->Ok_0.data@.len() == items@.len(),
        res is Ok ==> (forall|i: int|
            0 <= i < items@.len() ==> res->Ok_0.data@[i] == classified(items@[i])),
{
    let ghost orig = items@;
    let mut rest = items;
    let mut out: Vec<Data> = Vec::new();
    while rest.len() > 0
        invariant
            orig == items@,
            out@.len() + rest@.len() == orig.len(),
            rest@ == orig.skip(out@.len() as int),
            forall|i: int| 0 <= i < out@.len() ==> raw_fits(orig[i]),
            forall|i: int| 0 <= i < out@.len() ==> out@[i] == classified(orig[i]),
        decreases rest@.len(),
    {
        let ghost k = out@.len() as int;
        proof {
            assert(orig.skip(k)[0] == orig[k]);
        }
        let r = rest.remove(0);
        match classify(r) {
            Ok(d) => {
                out.push(d);
                proof {
                    assert(rest@ =~= orig.skip(k + 1));
                }
            },
            Err(e) => {
                proof {
                    assert(!raw_fits(orig[k]));
                    assert(!all_fit(orig));
                }
                return Err(e);
            },
        }
    }
    proof {
        assert(out@.len() == orig.len());
    }
    Ok(DataRequest { data: out })
}

/// The whole operation behind the endpoint: decode a raw list and, when it
/// decodes, aggregate it. The totals are the wrapping 32-bit sums over the
/// classified items; an unclassifiable value yields the rejection instead.
pub fn handle_raw(items: Vec<RawValue>) -> (res: Result<DataResponse, DecodeError>)
    ensures
        res is Ok <==> all_fit(items@),
        res is Ok ==> res->Ok_0.int_sum as int == wrap32(
            int_total(items@.map_values(|r: RawValue| classified(r))),
        ),
        res is Ok ==> res->Ok_0.string_len as int == wrap32(
            len_total(items@.map_values(|r: RawValue| classified(r))),
        ),
{
    let ghost orig = items@;
    match decode_request(items) {
        Ok(request) => {
            proof {
                assert(request.data@ =~= orig.map_values(|r: RawValue| classified(r)));
            }
            let response = process_data(&request);
            Ok(response)
        },
        Err(e) => Err(e),
    }
}

} // verus!
