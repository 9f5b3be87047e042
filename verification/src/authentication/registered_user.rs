use vstd::prelude::*;

use crate::authentication::authenticated_token::AuthenticatedToken;
use crate::model::user::{User, UserFilter, UserId};
use crate::model::Filter;
use crate::resource::user_repository::UserRepository;
use crate::resource::{list_query, Fetch, GetListRepository, Param, SqlPart, Statement};
use crate::resource::condition;

verus! {

/// A user that has registered with the service.
#[derive(Debug, Clone)]
pub struct RegisteredUser {
    pub user: User,
}

/// The conditions that find the user registered for an issuer and subject.
pub open spec fn registration_conditions(iss: Seq<char>, sub: Seq<char>) -> Seq<Seq<SqlPart>> {
    seq![condition("sub = "@, Param::Text(sub)), condition("iss = "@, Param::Text(iss))]
}

impl RegisteredUser {
    pub fn new(user: User) -> (r: Self)
        ensures
            r.user == user,
    {
        RegisteredUser { user }
    }

    pub fn id(&self) -> (id: UserId)
        ensures
            id == self.user.id,
    {
        self.user.id
    }

    /// The statement that finds the user registered for the token: the
    /// first user with the token's subject and issuer.
    pub fn lookup(token: &AuthenticatedToken) -> (s: Statement)
        ensures
            s.query@ == list_query(
                "SELECT * FROM \"user\" "@,
                registration_conditions(token.spec_claims().spec_iss(), token.spec_claims().spec_sub()),
                0,
                Some(1i64),
            ),
            s.fetch == Fetch::All,
            !s.commit,
    {
        let mut filter = UserFilter::default();
        filter.iss = Some(token.iss().to_owned());
        filter.sub = Some(token.sub().to_owned());
        proof {
            assert(filter.spec_conditions() =~= registration_conditions(
                token.spec_claims().spec_iss(),
                token.spec_claims().spec_sub(),
            ));
        }
        UserRepository.get_list(0, Some(1), filter)
    }

    /// The registered user among the rows that the lookup found: the last
    /// one, or none when no row came back.
    pub fn from_rows(rows: Vec<User>) -> (r: Option<RegisteredUser>)
        ensures
            rows@.len() == 0 <==> r is None,
            r matches Some(u) ==> u.user == rows@.last(),
    {
        let mut rows = rows;
        match rows.pop() {
            Some(user) => Some(RegisteredUser::new(user)),
            None => None,
        }
    }
}

} // verus!
