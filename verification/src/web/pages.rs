use vstd::prelude::*;

use crate::model::account::Account;
use crate::model::institution::{Institution, InstitutionId};
use crate::web::auth::{REFRESH_TOKEN_INTERVAL, REFRESH_TOKEN_MAX_AGE};

verus! {

/// When the access token is refreshed: `expires_in` seconds from now less
/// the part of the refresh token's life that is kept in reserve, as an
/// unsigned count of seconds (the difference is converted with `as`, so a
/// negative one wraps); no refresh is planned while nothing expires.
pub open spec fn spec_refresh_delay(expires_in: i64) -> Option<u64> {
    if expires_in == 0 {
        None
    } else {
        let d = expires_in - (REFRESH_TOKEN_MAX_AGE - REFRESH_TOKEN_INTERVAL);
        if d < i64::MIN {
            Some(0)
        } else {
            Some(d as i64 as u64)
        }
    }
}

/// When the access token is refreshed, in seconds from now.
pub fn refresh_delay(expires_in: i64) -> (r: Option<u64>)
    ensures
        r == spec_refresh_delay(expires_in),
{
    if expires_in == 0 {
        return None;
    }
    let d: i128 = expires_in as i128 - (REFRESH_TOKEN_MAX_AGE - REFRESH_TOKEN_INTERVAL) as i128;
    if d < i64::MIN as i128 {
        Some(0)
    } else {
        let d64 = d as i64;
        Some(d64 as u64)
    }
}

/// The style of the `i`-th row of a table: rows alternate their background.
pub fn row_class(i: usize) -> (r: &'static str)
    ensures
        i % 2 == 0 ==> r@ == "bg-ctp-surface0 border border-ctp-surface2"@,
        i % 2 == 1 ==> r@ == "bg-ctp-surface1 border border-ctp-surface2"@,
{
    if i % 2 == 0 {
        "bg-ctp-surface0 border border-ctp-surface2"
    } else {
        "bg-ctp-surface1 border border-ctp-surface2"
    }
}

/// Finds the institution `id` among `institutions`: the last one with that
/// id, as a map built from the list in order keeps the last.
pub fn find_institution(institutions: &[Institution], id: InstitutionId) -> (r: Option<usize>)
    ensures
        r matches Some(k) ==> k < institutions@.len() && institutions@[k as int].id == id && forall|j: int|
            k < j < institutions@.len() ==> #[trigger] institutions@[j].id != id,
        r is None ==> forall|k: int| 0 <= k < institutions@.len() ==> #[trigger] institutions@[k].id != id,
{
    let mut k: usize = institutions.len();
    while k > 0
        invariant
            k <= institutions@.len(),
            forall|j: int| k <= j < institutions@.len() ==> #[trigger] institutions@[j].id != id,
        decreases k,
    {
        k = k - 1;
        if institutions[k].id == id {
            return Some(k);
        }
    }
    None
}

/// The name of an account's institution as the home page shows it: the
/// institution's name, or nothing when it is unknown.
pub fn institution_name(institutions: &[Institution], id: InstitutionId) -> (r: String)
    ensures
        known_institution(institutions@, id) ==> institution_named(institutions@, id, r@),
        !known_institution(institutions@, id) ==> r@ == Seq::<char>::empty(),
{
    match find_institution(institutions, id) {
        Some(k) => institutions[k].name.clone(),
        None => String::new(),
    }
}

/// Whether the institution `id` is among `institutions`.
pub open spec fn known_institution(institutions: Seq<Institution>, id: InstitutionId) -> bool {
    exists|k: int| 0 <= k < institutions.len() && #[trigger] institutions[k].id == id
}

/// Whether `name` is the name of the last institution `id` among
/// `institutions`.
pub open spec fn institution_named(institutions: Seq<Institution>, id: InstitutionId, name: Seq<char>) -> bool {
    exists|k: int|
        0 <= k < institutions.len() && #[trigger] institutions[k].id == id && institutions[k].name@ == name && (
        forall|j: int| k < j < institutions.len() ==> #[trigger] institutions[j].id != id)
}

/// The accounts that the accounts page lists: those whose institution is
/// known, in their order, each with its institution's name.
pub fn listed_accounts(accounts: &[Account], institutions: &[Institution]) -> (r: Vec<(usize, String)>)
    ensures
        forall|j: int|
            0 <= j < r@.len() ==> #[trigger] r@[j].0 < accounts@.len() && institution_named(
                institutions@,
                accounts@[r@[j].0 as int].institution_id,
                r@[j].1@,
            ),
        forall|j: int, l: int| 0 <= j < l < r@.len() ==> #[trigger] r@[j].0 < #[trigger] r@[l].0,
        forall|a: int|
            #![trigger accounts@[a]]
            0 <= a < accounts@.len() && known_institution(institutions@, accounts@[a].institution_id) ==> exists|
                j: int,
            | 0 <= j < r@.len() && #[trigger] r@[j].0 == a,
{
    let mut r: Vec<(usize, String)> = Vec::new();
    let mut a: usize = 0;
    while a < accounts.len()
        invariant
            a <= accounts@.len(),
            forall|j: int|
                0 <= j < r@.len() ==> #[trigger] r@[j].0 < a && institution_named(
                    institutions@,
                    accounts@[r@[j].0 as int].institution_id,
                    r@[j].1@,
                ),
            forall|j: int, l: int| 0 <= j < l < r@.len() ==> #[trigger] r@[j].0 < #[trigger] r@[l].0,
            forall|x: int|
                #![trigger accounts@[x]]
                0 <= x < a && known_institution(institutions@, accounts@[x].institution_id) ==> exists|j: int|
                    0 <= j < r@.len() && #[trigger] r@[j].0 == x,
        decreases accounts@.len() - a,
    {
        match find_institution(institutions, accounts[a].institution_id) {
            Some(k) => {
                let name = institutions[k].name.clone();
                let ghost old_r = r@;
                r.push((a, name));
                proof {
                    assert(r@[r@.len() - 1].0 == a);
                    assert(institutions@[k as int].name@ == r@[r@.len() - 1].1@);
                    assert forall|j: int| 0 <= j < old_r.len() implies r@[j] == old_r[j] by {}
                    assert forall|x: int|
                        #![trigger accounts@[x]]
                        0 <= x < a + 1 && known_institution(institutions@, accounts@[x].institution_id) implies exists|j: int|
                            0 <= j < r@.len() && #[trigger] r@[j].0 == x by {
                        if x < a {
                            let j = choose|j: int| 0 <= j < old_r.len() && #[trigger] old_r[j].0 == x;
                            assert(r@[j].0 == x);
                        } else {
                            assert(r@[r@.len() - 1].0 == x);
                        }
                    }
                }
            },
            None => {
                proof {
                    assert(!known_institution(institutions@, accounts@[a as int].institution_id));
                }
            },
        }
        a = a + 1;
    }
    r
}

} // verus!
