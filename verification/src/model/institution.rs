use vstd::prelude::*;

use crate::model::{Filter, Timestamp};
use crate::resource::{column_condition, condition, push_where, query_views, BindValue, Param, SqlPart, SqlQuery};

verus! {

/// The id of an institution: the 128 bits of its UUID.
#[derive(Debug, Default, Clone, Copy, PartialEq, Eq, Structural, Hash)]
pub struct InstitutionId(pub u128);

/// A financial institution.
#[derive(Debug)]
pub struct Institution {
    /// The id of the institution
    pub id: InstitutionId,
    /// When the institution was created
    pub created_at: Timestamp,
    /// When the institution was updated
    pub updated_at: Timestamp,
    /// The institution name
    pub name: String,
}

impl Clone for Institution {
    fn clone(&self) -> (r: Self)
        ensures
            r == *self,
    {
        Institution { id: self.id, created_at: self.created_at, updated_at: self.updated_at, name: self.name.clone() }
    }
}

/// What is needed to create an institution.
#[derive(Debug)]
pub struct InstitutionCreate {
    /// The institution name
    pub name: String,
}

/// The new values of an institution; unset fields stay.
#[derive(Debug)]
pub struct InstitutionUpdate {
    /// The new institution name
    pub name: Option<String>,
}

/// A filter on institutions.
#[derive(Debug)]
pub struct InstitutionFilter {
    /// The institution name to filter on
    pub name: Option<String>,
}

impl Default for InstitutionFilter {
    fn default() -> (f: Self)
        ensures
            f.name is None,
    {
        InstitutionFilter { name: None }
    }
}

impl Filter for InstitutionFilter {
    open spec fn spec_conditions(&self) -> Seq<Seq<SqlPart>> {
        match self.name {
            Some(name) => seq![condition("name = "@, Param::Text(name@))],
            None => Seq::empty(),
        }
    }

    fn push(self, query: &mut SqlQuery) {
        let ghost conds = self.spec_conditions();
        let mut parts: Vec<SqlQuery> = Vec::new();
        if let Some(name) = self.name {
            parts.push(column_condition("name = ", BindValue::Text(name)));
        }
        assert(query_views(parts@) =~= conds);
        push_where(query, parts);
    }
}

} // verus!
