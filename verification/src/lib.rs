//! A lossless, unvalidated parser for the CIF 2.0 exchange syntax.
//!
//! The grammar is stated once, mathematically, as a family of spec functions
//! over the source bytes (`grammar`); the executable recursive-descent parser
//! (`parser`) is proved to return exactly what that grammar denotes.  The
//! resulting tree (`model`) holds nothing but spans into the caller's buffer.

use vstd::prelude::*;

pub mod grammar;
pub mod laws;
pub mod model;
pub mod parser;

verus! {

/// Sum of two machine words, defined on inputs whose sum fits in one.
pub fn add(left: u64, right: u64) -> (r: u64)
    requires
        left + right <= u64::MAX,
    ensures
        r == left + right,
{
    left + right
}

} // verus!
