use vstd::prelude::*;

use crate::model::{institution::InstitutionId, user::UserId, Filter, Timestamp};
use crate::resource::{column_condition, condition, push_where, query_views, BindValue, Param, SqlPart, SqlQuery};

verus! {

/// The id of an account: the 128 bits of its UUID.
#[derive(Debug, Default, Clone, Copy, PartialEq, Eq, Structural, Hash)]
pub struct AccountId(pub u128);

/// An account that a user holds at an institution.
#[derive(Debug)]
pub struct Account {
    /// The id of the account
    pub id: AccountId,
    /// When the account was created
    pub created_at: Timestamp,
    /// When the account was updated
    pub updated_at: Timestamp,
    /// The user to whom the account belongs
    pub user_id: UserId,
    /// The institution to which the account is associated
    pub institution_id: InstitutionId,
    /// The name of the account
    pub name: String,
}

impl Clone for Account {
    fn clone(&self) -> (r: Self)
        ensures
            r == *self,
    {
        Account {
            id: self.id,
            created_at: self.created_at,
            updated_at: self.updated_at,
            user_id: self.user_id,
            institution_id: self.institution_id,
            name: self.name.clone(),
        }
    }
}

/// What is needed to create an account.
#[derive(Debug)]
pub struct AccountCreate {
    pub name: String,
    pub institution_id: InstitutionId,
    pub user_id: UserId,
}

/// The new values of an account.
#[derive(Debug)]
pub struct AccountUpdate {
    pub name: String,
}

/// A filter on accounts; each field that is set must match.
#[derive(Debug)]
pub struct AccountFilter {
    pub id: Option<AccountId>,
    pub name: Option<String>,
    pub institution_id: Option<InstitutionId>,
    pub user_id: Option<UserId>,
}

impl Default for AccountFilter {
    fn default() -> (f: Self)
        ensures
            f.id is None,
            f.name is None,
            f.institution_id is None,
            f.user_id is None,
    {
        AccountFilter { id: None, name: None, institution_id: None, user_id: None }
    }
}

impl Filter for AccountFilter {
    open spec fn spec_conditions(&self) -> Seq<Seq<SqlPart>> {
        (match self.id {
            Some(id) => seq![condition("id = "@, Param::Uuid(id.0))],
            None => Seq::empty(),
        }) + (match self.name {
            Some(name) => seq![condition("name = "@, Param::Text(name@))],
            None => Seq::empty(),
        }) + (match self.institution_id {
            Some(id) => seq![condition("institution_id = "@, Param::Uuid(id.0))],
            None => Seq::empty(),
        }) + (match self.user_id {
            Some(id) => seq![condition("user_id = "@, Param::Uuid(id.0))],
            None => Seq::empty(),
        })
    }

    fn push(self, query: &mut SqlQuery) {
        let ghost conds = self.spec_conditions();
        let mut parts: Vec<SqlQuery> = Vec::new();
        if let Some(id) = self.id {
            parts.push(column_condition("id = ", BindValue::Uuid(id.0)));
        }
        if let Some(name) = self.name {
            parts.push(column_condition("name = ", BindValue::Text(name)));
        }
        if let Some(id) = self.institution_id {
            parts.push(column_condition("institution_id = ", BindValue::Uuid(id.0)));
        }
        if let Some(id) = self.user_id {
            parts.push(column_condition("user_id = ", BindValue::Uuid(id.0)));
        }
        assert(query_views(parts@) =~= conds);
        push_where(query, parts);
    }
}

} // verus!
