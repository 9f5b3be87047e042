//! The records that the service keeps.
use vstd::prelude::*;

use crate::resource::{where_clause, SqlPart, SqlQuery};

pub mod account;
pub mod asset;
pub mod csrf_token;
pub mod cursor_key;
pub mod institution;
pub mod transaction;
pub mod user;

verus! {

/// A point in time, as microseconds since the Unix epoch, in UTC.
#[derive(Debug, Default, Clone, Copy, PartialEq, Eq, Structural, Hash)]
pub struct Timestamp(pub i64);

/// A filter on a list of records, written as the `WHERE` clause of a query.
pub trait Filter: Sized {
    /// The conditions of the filter, one per field that is set.
    spec fn spec_conditions(&self) -> Seq<Seq<SqlPart>>;

    /// Appends the filter's `WHERE` clause to the query: nothing when no
    /// field is set, else `WHERE` and the conditions joined by `AND`.
    fn push(self, query: &mut SqlQuery)
        ensures
            final(query)@ == old(query)@ + where_clause(self.spec_conditions()),
    ;
}

} // verus!
