//! The storage reader's data model and its fail-open policy.
//!
//! Storage holds immutable text entries keyed by a sparse integer
//! identifier: gaps may exist, and this service only reads. The one piece
//! of logic owned here is the fail-open substitution applied to the
//! maximum-identifier query: a failed or empty aggregate query yields a
//! fixed fallback bound instead of an error, so the service degrades to
//! occasional sampling misses rather than crashing.

use vstd::prelude::*;

verus! {

/// One stored text record. Entries are created and deleted only by an
/// external process; this service never mutates them.
#[derive(Clone, Debug)]
pub struct Entry {
    pub id: i64,
    pub body: String,
}

/// The effective maximum-identifier bound for a raw query outcome.
///
/// The outer `Option` is `None` when the aggregate query itself failed;
/// the inner `Option` is `None` when the collection is empty (the maximum
/// of no rows). Both degrade to the caller-supplied fallback bound.
pub open spec fn effective_max_spec(raw: Option<Option<i32>>, fallback: i64) -> i64 {
    match raw {
        Some(Some(m)) => m as i64,
        Some(None) => fallback,
        None => fallback,
    }
}

/// Substitute the fallback bound when the maximum-identifier query failed
/// or found an empty collection; pass a real maximum through unchanged.
pub fn effective_max_id(raw: Option<Option<i32>>, fallback: i64) -> (m: i64)
    ensures
        m == effective_max_spec(raw, fallback),
{
    match raw {
        Some(Some(m)) => m as i64,
        Some(None) => fallback,
        None => fallback,
    }
}

} // verus!
