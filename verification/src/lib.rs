//! A zero-allocation-style, single-pass parser and query engine for a
//! restricted JSON subset, together with the record-keeping state machines
//! built on top of it.
//!
//! The core is four byte-level scanners: a structural validator
//! (`json::is_well_formed`), a scalar field extractor (`json::get_field`),
//! an array/object field extractor (`json::get_complex_field`) and two
//! element iterators (`json::get_array_element`, `json::get_record_element`).
//! Each is specified against a mathematical model of its scan and never
//! panics on malformed input.

pub mod base58;
pub mod bytes;
pub mod docsig;
pub mod json;
pub mod keys;
pub mod marketplace;
pub mod numbers;
pub mod store;
pub mod validate;
pub mod vote;
pub mod weights;
