//! Aggregation over a mixed list of unsigned integers and strings.
//!
//! A request holds an ordered list of items, each either a 32-bit unsigned
//! integer or a piece of text. The aggregator computes two totals in one
//! pass: the wrapping 32-bit sum of the integer items and the wrapping
//! 32-bit sum of the byte lengths of the text items. Classification of raw
//! input values into items, and the error for values that fit neither shape,
//! live in [`decode`]; the totals and the aggregator live in [`data`]; proofs
//! that the totals do not depend on the order of the items live in [`order`].

pub mod data;
pub mod decode;
pub mod order;
