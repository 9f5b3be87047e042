use vstd::prelude::*;

use crate::model::{Filter, Timestamp};
use crate::resource::{column_condition, condition, push_where, query_views, BindValue, Param, SqlPart, SqlQuery};

verus! {

/// The id of a user: the 128 bits of its UUID.
#[derive(Debug, Default, Clone, Copy, PartialEq, Eq, Structural, Hash)]
pub struct UserId(pub u128);

/// A registered user.
#[derive(Debug)]
pub struct User {
    /// The user id
    pub id: UserId,
    /// When the user was created
    pub created_at: Timestamp,
    /// When the user was updated
    pub updated_at: Timestamp,
    /// The user name
    pub name: String,
    /// The user email
    pub email: String,
    /// The OAuth `sub` claim
    pub sub: String,
    /// The OAuth `iss` claim
    pub iss: String,
}

impl Clone for User {
    fn clone(&self) -> (r: Self)
        ensures
            r == *self,
    {
        User {
            id: self.id,
            created_at: self.created_at,
            updated_at: self.updated_at,
            name: self.name.clone(),
            email: self.email.clone(),
            sub: self.sub.clone(),
            iss: self.iss.clone(),
        }
    }
}

/// What is needed to register a user.
#[derive(Debug)]
pub struct UserCreate {
    /// The user name
    pub name: String,
    /// The user email
    pub email: String,
    /// The OAuth `sub` claim
    pub sub: String,
    /// The OAuth `iss` claim
    pub iss: String,
}

/// The new values of a user; unset fields stay.
#[derive(Debug)]
pub struct UserUpdate {
    /// The new user name
    pub name: Option<String>,
    /// The new user email
    pub email: Option<String>,
}

/// A filter on users.
#[derive(Debug)]
pub struct UserFilter {
    /// The user id
    pub id: Option<UserId>,
    /// The user name
    pub name: Option<String>,
    /// The user email
    pub email: Option<String>,
    /// The OAuth `sub` claim
    pub sub: Option<String>,
    /// The OAuth `iss` claim
    pub iss: Option<String>,
}

impl Default for UserFilter {
    fn default() -> (f: Self)
        ensures
            f.id is None,
            f.name is None,
            f.email is None,
            f.sub is None,
            f.iss is None,
    {
        UserFilter { id: None, name: None, email: None, sub: None, iss: None }
    }
}

impl Filter for UserFilter {
    open spec fn spec_conditions(&self) -> Seq<Seq<SqlPart>> {
        (match self.id {
            Some(id) => seq![condition("id = "@, Param::Uuid(id.0))],
            None => Seq::empty(),
        }) + (match self.name {
            Some(name) => seq![condition("name = "@, Param::Text(name@))],
            None => Seq::empty(),
        }) + (match self.email {
            Some(email) => seq![condition("email = "@, Param::Text(email@))],
            None => Seq::empty(),
        }) + (match self.sub {
            Some(sub) => seq![condition("sub = "@, Param::Text(sub@))],
            None => Seq::empty(),
        }) + (match self.iss {
            Some(iss) => seq![condition("iss = "@, Param::Text(iss@))],
            None => Seq::empty(),
        })
    }

    fn push(self, query: &mut SqlQuery) {
        let ghost conds = self.spec_conditions();
        let mut parts: Vec<SqlQuery> = Vec::new();
        if let Some(id) = self.id {
            parts.push(column_condition("id = ", BindValue::Uuid(id.0)));
        }
        if let Some(name) = self.name {
            parts.push(column_condition("name = ", BindValue::Text(name)));
        }
        if let Some(email) = self.email {
            parts.push(column_condition("email = ", BindValue::Text(email)));
        }
        if let Some(sub) = self.sub {
            parts.push(column_condition("sub = ", BindValue::Text(sub)));
        }
        if let Some(iss) = self.iss {
            parts.push(column_condition("iss = ", BindValue::Text(iss)));
        }
        assert(query_views(parts@) =~= conds);
        push_where(query, parts);
    }
}

} // verus!
