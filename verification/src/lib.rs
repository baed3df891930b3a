//! A restricted single-table SELECT engine front end.
//!
//! The heart of the crate is a translator from a parsed SQL statement to a
//! small validated query record ([`query::Sql`]): a projection list, an
//! optional filter expression, one source name, sort keys, offset and limit.
//! Everything outside a well-defined SELECT subset is rejected with an error
//! naming the construct. Fetching the source's bytes, loading them into a
//! table and running the final plan belong to external collaborators.

use vstd::prelude::*;

pub mod ast;
pub mod convert;
pub mod error;
pub mod fetcher;
pub mod laws;
pub mod num;
pub mod query;

verus! {

/// A ready-made query text for demonstrations and bindings.
pub fn example_sql() -> (r: String)
    ensures
        r@ == "SELECT location, total_cases FROM file://data.csv WHERE total_cases > 500"@,
{
    "SELECT location, total_cases FROM file://data.csv WHERE total_cases > 500".to_owned()
}

/// Sums two counters; the caller keeps the sum within `usize`.
pub fn add(left: usize, right: usize) -> (r: usize)
    requires
        left + right <= usize::MAX,
    ensures
        r == left + right,
{
    left + right
}

} // verus!
