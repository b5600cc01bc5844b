use vstd::prelude::*;

mod outside;
pub mod error;
pub mod result;
pub mod text;
pub mod columns;
pub mod headers;
pub mod range;
pub mod filter;
pub mod query;
pub mod resolver;
pub mod client;

pub use error::{QueryError, PostgrestError};
pub use result::PostgrestResult;
pub use filter::{FilterBuilder, Method, Shape};
pub use query::QueryBuilder;
pub use client::PostgrestClient;

verus! {

/// Use this with `FilterBuilder::count` to receive the table-wide item count with a query result.
#[derive(Debug)]
pub enum Count {
    /// Calculates the exact count; slower as the table grows.
    Exact,
    /// Approximates the count from the planner's statistics.
    Planned,
    /// Exact for small tables, planned for large ones.
    Estimated,
    /// A counter named by the caller, sent as it is.
    Custom(String),
}

impl Count {
    /// The word that names this mode on the wire, as in `prefer: count=<word>`.
    pub open spec fn wire(&self) -> Seq<char> {
        match self {
            Count::Exact => "exact"@,
            Count::Planned => "planned"@,
            Count::Estimated => "estimated"@,
            Count::Custom(x) => x@,
        }
    }

    pub fn to_string(&self) -> (r: String)
        ensures
            r@ == self.wire(),
    {
        match self {
            Count::Exact => String::from_str("exact"),
            Count::Planned => String::from_str("planned"),
            Count::Estimated => String::from_str("estimated"),
            Count::Custom(x) => x.clone(),
        }
    }
}

} // verus!
