use std::sync::Arc;

use casbin::Enforcer;

pub use crate::authorization::check::PolicyCheck;
use vstd::prelude::*;
use vstd::arithmetic::div_mod::{lemma_fundamental_div_mod, lemma_fundamental_div_mod_converse, lemma_mod_pos_bound};

use crate::authentication::authenticated_token::{string_views, AuthenticatedToken};
use crate::authorization::actions::{CreateLevel, DeleteLevel, ReadLevel, UpdateLevel};
use crate::resource::str_views;

pub mod actions;
pub mod check;
pub mod policy;
pub mod roles;

verus! {

#[verifier::external_type_specification]
#[verifier::external_body]
pub struct ExEnforcer(casbin::Enforcer);

#[verifier::external_type_specification]
#[verifier::external_body]
pub struct ExCasbinError(casbin::Error);

/// An error while deciding a permission.
#[derive(Debug)]
pub enum AuthorizationError {
    /// The policy engine failed.
    Policy(casbin::Error),
}

/// The most permissive level that may be granted for each kind of action.
#[derive(Debug, Clone, Copy, PartialEq, Eq, Structural)]
pub struct PermissionConfig {
    /// The highest level of read permission
    pub min_read_level: ReadLevel,
    /// The highest level of create permission
    pub min_create_level: CreateLevel,
    /// The highest level of update permission
    pub min_update_level: UpdateLevel,
    /// The highest level of delete permission
    pub min_delete_level: DeleteLevel,
}

/// The levels granted to a requester on one resource.
#[derive(Debug, Clone, Copy, PartialEq, Eq, Structural)]
pub struct PermissionSet {
    pub read_level: ReadLevel,
    pub create_level: CreateLevel,
    pub update_level: UpdateLevel,
    pub delete_level: DeleteLevel,
}

/// The questions put to the policy for each kind of action, in the order
/// they were asked.
pub struct PolicyChecks {
    pub read: Vec<PolicyCheck>,
    pub create: Vec<PolicyCheck>,
    pub update: Vec<PolicyCheck>,
    pub delete: Vec<PolicyCheck>,
}

/// One row of questions, as (group index, rank): each of `m` groups about
/// the level at `rank`.
pub open spec fn row(m: nat, rank: int) -> Seq<(int, int)> {
    Seq::new(m, |j: int| (j, rank))
}

/// The questions of a search, as (group index, rank): for each rank from
/// `lo` up to `n`, each of the `m` groups in turn.
pub open spec fn requests(m: nat, lo: int, n: int) -> Seq<(int, int)>
    decreases n - lo,
{
    if lo >= n {
        Seq::empty()
    } else {
        row(m, lo) + requests(m, lo + 1, n)
    }
}

/// Whether `checks` are the questions that the search for one kind of
/// action puts to the policy, in order: whether `groups[j]` holds the level
/// named `names[r]` on `resource`, for each rank `r` from `lo` on and each
/// group `j` in turn, up to the first one that is granted or fails.
pub open spec fn follows_requests(
    checks: Seq<PolicyCheck>,
    groups: Seq<Seq<char>>,
    resource: Seq<char>,
    names: Seq<Seq<char>>,
    lo: int,
) -> bool {
    let reqs = requests(groups.len(), lo, names.len() as int);
    &&& checks.len() <= reqs.len()
    &&& forall|i: int| 0 <= i < checks.len() ==> (#[trigger] checks[i]).spec_subject() == groups[reqs[i].0]
    &&& forall|i: int| 0 <= i < checks.len() ==> (#[trigger] checks[i]).spec_object() == resource
    &&& forall|i: int| 0 <= i < checks.len() ==> (#[trigger] checks[i]).spec_action() == names[reqs[i].1]
    &&& forall|i: int| 0 <= i < checks.len() - 1 ==> (#[trigger] checks[i]).spec_answer() == Some(false)
    &&& (checks.len() == reqs.len() || (checks.len() > 0 && checks[checks.len() - 1].spec_answer() != Some(false)))
}

/// The rank that a search ends with: `None` when the engine failed, the
/// rank asked about in the question that was granted, or else the last
/// rank, no permission.
pub open spec fn search_outcome(checks: Seq<PolicyCheck>, m: nat, lo: int, n: int) -> Option<int> {
    if checks.len() > 0 && checks[checks.len() - 1].spec_answer() is None {
        None
    } else if checks.len() > 0 && checks[checks.len() - 1].spec_answer() == Some(true) {
        Some(requests(m, lo, n)[checks.len() - 1].1)
    } else {
        Some(n - 1)
    }
}

/// The engine's error that ended a search: that of its last question.
pub open spec fn last_failure(checks: Seq<PolicyCheck>) -> casbin::Error {
    checks[checks.len() - 1].spec_failure().unwrap()
}

/// The policy names of the read levels, by rank.
pub open spec fn read_names() -> Seq<Seq<char>> {
    seq![ReadLevel::ReadAll.spec_name(), ReadLevel::Read.spec_name(), ReadLevel::NoPermission.spec_name()]
}

/// The policy names of the create levels, by rank.
pub open spec fn create_names() -> Seq<Seq<char>> {
    seq![CreateLevel::Create.spec_name(), CreateLevel::NoPermission.spec_name()]
}

/// The policy names of the update levels, by rank.
pub open spec fn update_names() -> Seq<Seq<char>> {
    seq![UpdateLevel::UpdateAll.spec_name(), UpdateLevel::Update.spec_name(), UpdateLevel::NoPermission.spec_name()]
}

/// The policy names of the delete levels, by rank.
pub open spec fn delete_names() -> Seq<Seq<char>> {
    seq![DeleteLevel::DeleteAll.spec_name(), DeleteLevel::Delete.spec_name(), DeleteLevel::NoPermission.spec_name()]
}

/// How the permissions of `groups` on `resource` are decided from the
/// policy's answers: the kinds of action are searched in turn (read,
/// create, update, delete), each with the questions of `follows_requests`
/// from its configured rank on; a failure of the engine ends the decision
/// with no permission set; otherwise each level is the one its search ends
/// with.
pub open spec fn spec_decided(
    groups: Seq<Seq<char>>,
    resource: Seq<char>,
    config: PermissionConfig,
    rd: Seq<PolicyCheck>,
    cr: Seq<PolicyCheck>,
    up: Seq<PolicyCheck>,
    de: Seq<PolicyCheck>,
    outcome: Result<PermissionSet, AuthorizationError>,
) -> bool {
    let m = groups.len();
    let o_r = search_outcome(rd, m, config.min_read_level.spec_rank(), 3);
    let o_c = search_outcome(cr, m, config.min_create_level.spec_rank(), 2);
    let o_u = search_outcome(up, m, config.min_update_level.spec_rank(), 3);
    let o_d = search_outcome(de, m, config.min_delete_level.spec_rank(), 3);
    &&& follows_requests(rd, groups, resource, read_names(), config.min_read_level.spec_rank())
    &&& if o_r is None {
        cr.len() == 0 && up.len() == 0 && de.len() == 0 && outcome == Err::<PermissionSet, AuthorizationError>(AuthorizationError::Policy(last_failure(rd)))
    } else {
        &&& follows_requests(cr, groups, resource, create_names(), config.min_create_level.spec_rank())
        &&& if o_c is None {
            up.len() == 0 && de.len() == 0 && outcome == Err::<PermissionSet, AuthorizationError>(AuthorizationError::Policy(last_failure(cr)))
        } else {
            &&& follows_requests(up, groups, resource, update_names(), config.min_update_level.spec_rank())
            &&& if o_u is None {
                de.len() == 0 && outcome == Err::<PermissionSet, AuthorizationError>(AuthorizationError::Policy(last_failure(up)))
            } else {
                &&& follows_requests(de, groups, resource, delete_names(), config.min_delete_level.spec_rank())
                &&& if o_d is None {
                    outcome == Err::<PermissionSet, AuthorizationError>(AuthorizationError::Policy(last_failure(de)))
                } else {
                    outcome == Ok::<PermissionSet, AuthorizationError>(
                        PermissionSet {
                            read_level: ReadLevel::spec_from_rank(o_r.unwrap()),
                            create_level: CreateLevel::spec_from_rank(o_c.unwrap()),
                            update_level: UpdateLevel::spec_from_rank(o_u.unwrap()),
                            delete_level: DeleteLevel::spec_from_rank(o_d.unwrap()),
                        },
                    )
                }
            }
        }
    }
}

/// The requests of a search split at any rank between its ends.
pub proof fn lemma_requests_split(m: nat, lo: int, r: int, n: int)
    requires
        lo <= r <= n,
    ensures
        requests(m, lo, n) == requests(m, lo, r) + requests(m, r, n),
    decreases r - lo,
{
    if lo < r {
        lemma_requests_split(m, lo + 1, r, n);
        assert(requests(m, lo, n) =~= requests(m, lo, r) + requests(m, r, n));
    } else {
        assert(requests(m, lo, lo) =~= Seq::<(int, int)>::empty());
        assert(requests(m, lo, n) =~= requests(m, lo, r) + requests(m, r, n));
    }
}

/// Every request of a search names one of the `m` groups and a rank of the
/// search.
pub proof fn lemma_requests_bounds(m: nat, lo: int, n: int)
    ensures
        forall|i: int|
            0 <= i < requests(m, lo, n).len() ==> 0 <= (#[trigger] requests(m, lo, n)[i]).0 < m && lo
                <= requests(m, lo, n)[i].1 < n,
        m == 0 ==> requests(m, lo, n).len() == 0,
    decreases n - lo,
{
    if lo < n {
        lemma_requests_bounds(m, lo + 1, n);
        let rest = requests(m, lo + 1, n);
        assert forall|i: int| 0 <= i < requests(m, lo, n).len() implies 0 <= (#[trigger] requests(
            m,
            lo,
            n,
        )[i]).0 < m && lo <= requests(m, lo, n)[i].1 < n by {
            if i >= m {
                assert(requests(m, lo, n)[i] == rest[i - m]);
            }
        }
    }
}

/// Whether the policy, read as `policy(subject, object, action)`, grants
/// the level named `names[r]` on `resource` to any of `groups`.
pub open spec fn granted_at(
    policy: spec_fn(Seq<char>, Seq<char>, Seq<char>) -> bool,
    groups: Seq<Seq<char>>,
    resource: Seq<char>,
    names: Seq<Seq<char>>,
    r: int,
) -> bool {
    exists|j: int| 0 <= j < groups.len() && #[trigger] policy(groups[j], resource, names[r])
}

/// The first rank from `lo` on whose level the policy grants to any of
/// `groups`; the last rank, no permission, when none is.
pub open spec fn first_granted(
    policy: spec_fn(Seq<char>, Seq<char>, Seq<char>) -> bool,
    groups: Seq<Seq<char>>,
    resource: Seq<char>,
    names: Seq<Seq<char>>,
    lo: int,
) -> int
    decreases names.len() - lo,
{
    if lo >= names.len() - 1 {
        names.len() - 1
    } else if granted_at(policy, groups, resource, names, lo) {
        lo
    } else {
        first_granted(policy, groups, resource, names, lo + 1)
    }
}

/// Whether every answer in `checks` is what `policy` says of its question.
pub open spec fn answers_agree(
    checks: Seq<PolicyCheck>,
    policy: spec_fn(Seq<char>, Seq<char>, Seq<char>) -> bool,
) -> bool {
    forall|i: int|
        0 <= i < checks.len() && (#[trigger] checks[i]).spec_answer() is Some ==> checks[i].spec_answer() == Some(
            policy(checks[i].spec_subject(), checks[i].spec_object(), checks[i].spec_action()),
        )
}

/// The permissions that `policy` gives `groups` on `resource`: for each
/// kind of action, the first level from the configured one on that it
/// grants to any of the groups.
pub open spec fn policy_permissions(
    policy: spec_fn(Seq<char>, Seq<char>, Seq<char>) -> bool,
    groups: Seq<Seq<char>>,
    resource: Seq<char>,
    config: PermissionConfig,
) -> PermissionSet {
    PermissionSet {
        read_level: ReadLevel::spec_from_rank(
            first_granted(policy, groups, resource, read_names(), config.min_read_level.spec_rank()),
        ),
        create_level: CreateLevel::spec_from_rank(
            first_granted(policy, groups, resource, create_names(), config.min_create_level.spec_rank()),
        ),
        update_level: UpdateLevel::spec_from_rank(
            first_granted(policy, groups, resource, update_names(), config.min_update_level.spec_rank()),
        ),
        delete_level: DeleteLevel::spec_from_rank(
            first_granted(policy, groups, resource, delete_names(), config.min_delete_level.spec_rank()),
        ),
    }
}

/// The requests of a search in closed form: the `i`th asks group `i % m`
/// about rank `lo + i / m`.
pub proof fn lemma_requests_index(m: nat, lo: int, n: int)
    requires
        lo <= n,
    ensures
        requests(m, lo, n).len() == (n - lo) * m,
        forall|i: int|
            0 <= i < requests(m, lo, n).len() ==> #[trigger] requests(m, lo, n)[i] == (
                i % (m as int),
                lo + i / (m as int),
            ),
    decreases n - lo,
{
    if lo >= n {
        assert((n - lo) * m == 0) by (nonlinear_arith)
            requires
                n - lo == 0,
        ;
    } else {
        lemma_requests_index(m, lo + 1, n);
        let rest = requests(m, lo + 1, n);
        assert((n - lo) * m == m + (n - lo - 1) * m) by (nonlinear_arith);
        assert(m == 0 ==> (n - lo - 1) * m == 0) by (nonlinear_arith);
        assert(requests(m, lo, n).len() == m + rest.len());
        assert forall|i: int| 0 <= i < requests(m, lo, n).len() implies #[trigger] requests(m, lo, n)[i] == (
            i % (m as int),
            lo + i / (m as int),
        ) by {
            let mi = m as int;
            if i < mi {
                lemma_fundamental_div_mod_converse(i, mi, 0, i);
            } else {
                assert(requests(m, lo, n)[i] == rest[i - mi]);
                lemma_fundamental_div_mod(i - mi, mi);
                lemma_mod_pos_bound(i - mi, mi);
                let q = (i - mi) / mi;
                let r = (i - mi) % mi;
                assert(i == (q + 1) * mi + r) by (nonlinear_arith)
                    requires
                        i - mi == mi * q + r,
                ;
                lemma_fundamental_div_mod_converse(i, mi, q + 1, r);
            }
        }
    }
}

/// The question about group `j` and rank `r` stands at `(r - lo) * m + j`
/// among the requests of a search.
pub proof fn lemma_request_at(m: nat, lo: int, n: int, r: int, j: int)
    requires
        lo <= r < n,
        0 <= j < m,
    ensures
        0 <= (r - lo) * m + j < requests(m, lo, n).len(),
        requests(m, lo, n)[(r - lo) * m + j] == (j, r),
{
    lemma_requests_index(m, lo, n);
    let mi = m as int;
    let k = (r - lo) * mi + j;
    assert(0 <= k < (n - lo) * mi) by (nonlinear_arith)
        requires
            lo <= r < n,
            0 <= j < mi,
            k == (r - lo) * mi + j,
    ;
    lemma_fundamental_div_mod_converse(k, mi, r - lo, j);
}

/// A question about a lower rank than that of the `i`th request comes
/// before it.
pub proof fn lemma_request_before(m: nat, lo: int, i: int, r: int, j: int)
    requires
        m > 0,
        0 <= i,
        lo <= r < lo + i / (m as int),
        0 <= j < m,
    ensures
        (r - lo) * m + j < i,
{
    let mi = m as int;
    lemma_fundamental_div_mod(i, mi);
    lemma_mod_pos_bound(i, mi);
    let q = i / mi;
    assert((r - lo) * mi + j < i) by (nonlinear_arith)
        requires
            mi > 0,
            0 <= j < mi,
            r - lo + 1 <= q,
            i == mi * q + i % mi,
            0 <= i % mi,
    ;
}

/// `r` is the first rank granted when no rank from `lo` before it is, and
/// it is granted or the last.
pub proof fn lemma_first_granted_is(
    policy: spec_fn(Seq<char>, Seq<char>, Seq<char>) -> bool,
    groups: Seq<Seq<char>>,
    resource: Seq<char>,
    names: Seq<Seq<char>>,
    lo: int,
    r: int,
)
    requires
        lo <= r <= names.len() - 1,
        forall|k: int| lo <= k < r ==> !#[trigger] granted_at(policy, groups, resource, names, k),
        granted_at(policy, groups, resource, names, r) || r == names.len() - 1,
    ensures
        first_granted(policy, groups, resource, names, lo) == r,
    decreases r - lo,
{
    if lo < r {
        assert(!granted_at(policy, groups, resource, names, lo));
        lemma_first_granted_is(policy, groups, resource, names, lo + 1, r);
    }
}

/// One search asks its questions in order and stops at the first grant:
/// whatever policy its answers agree with, the rank it ends with is the
/// first one from `lo` on that the policy grants to any of the groups, or
/// the last when none is.
pub proof fn lemma_search_takes_first_granted(
    checks: Seq<PolicyCheck>,
    groups: Seq<Seq<char>>,
    resource: Seq<char>,
    names: Seq<Seq<char>>,
    lo: int,
    policy: spec_fn(Seq<char>, Seq<char>, Seq<char>) -> bool,
)
    requires
        0 <= lo < names.len(),
        follows_requests(checks, groups, resource, names, lo),
        answers_agree(checks, policy),
        search_outcome(checks, groups.len(), lo, names.len() as int) is Some,
    ensures
        search_outcome(checks, groups.len(), lo, names.len() as int) == Some(
            first_granted(policy, groups, resource, names, lo),
        ),
{
    let m = groups.len();
    let n = names.len() as int;
    let reqs = requests(m, lo, n);
    lemma_requests_index(m, lo, n);
    lemma_requests_bounds(m, lo, n);
    let len = checks.len() as int;
    if len > 0 && checks[len - 1].spec_answer() == Some(true) {
        let i = len - 1;
        let j = reqs[i].0;
        let r = reqs[i].1;
        assert(policy(groups[j], resource, names[r]));
        assert(granted_at(policy, groups, resource, names, r));
        assert forall|k: int| lo <= k < r implies !#[trigger] granted_at(policy, groups, resource, names, k) by {
            assert forall|j2: int| 0 <= j2 < m implies !#[trigger] policy(groups[j2], resource, names[k]) by {
                lemma_request_before(m, lo, i, k, j2);
                lemma_request_at(m, lo, n, k, j2);
                let idx = (k - lo) * m + j2;
                assert(checks[idx].spec_answer() == Some(false));
            }
        }
        lemma_first_granted_is(policy, groups, resource, names, lo, r);
    } else {
        assert(len == reqs.len());
        assert forall|k: int| lo <= k < n - 1 implies !#[trigger] granted_at(policy, groups, resource, names, k) by {
            assert forall|j2: int| 0 <= j2 < m implies !#[trigger] policy(groups[j2], resource, names[k]) by {
                lemma_request_at(m, lo, n, k, j2);
                let idx = (k - lo) * m + j2;
                assert(checks[idx].spec_answer() == Some(false));
            }
        }
        lemma_first_granted_is(policy, groups, resource, names, lo, n - 1);
    }
}

/// Deciding follows the policy: whatever policy the engine's answers agree
/// with, a decision that succeeds gives the groups, for each kind of
/// action, the first level from the configured one on that the policy
/// grants to any of them.
pub proof fn lemma_decision_follows_policy(
    groups: Seq<Seq<char>>,
    resource: Seq<char>,
    config: PermissionConfig,
    rd: Seq<PolicyCheck>,
    cr: Seq<PolicyCheck>,
    up: Seq<PolicyCheck>,
    de: Seq<PolicyCheck>,
    p: PermissionSet,
    policy: spec_fn(Seq<char>, Seq<char>, Seq<char>) -> bool,
)
    requires
        spec_decided(groups, resource, config, rd, cr, up, de, Ok(p)),
        answers_agree(rd, policy),
        answers_agree(cr, policy),
        answers_agree(up, policy),
        answers_agree(de, policy),
    ensures
        p == policy_permissions(policy, groups, resource, config),
{
    lemma_search_takes_first_granted(rd, groups, resource, read_names(), config.min_read_level.spec_rank(), policy);
    lemma_search_takes_first_granted(
        cr,
        groups,
        resource,
        create_names(),
        config.min_create_level.spec_rank(),
        policy,
    );
    lemma_search_takes_first_granted(
        up,
        groups,
        resource,
        update_names(),
        config.min_update_level.spec_rank(),
        policy,
    );
    lemma_search_takes_first_granted(
        de,
        groups,
        resource,
        delete_names(),
        config.min_delete_level.spec_rank(),
        policy,
    );
}

/// With more groups the first granted rank comes no later.
proof fn lemma_first_granted_monotone(
    policy: spec_fn(Seq<char>, Seq<char>, Seq<char>) -> bool,
    fewer: Seq<Seq<char>>,
    more: Seq<Seq<char>>,
    resource: Seq<char>,
    names: Seq<Seq<char>>,
    lo: int,
)
    requires
        0 <= lo < names.len(),
        forall|j: int| 0 <= j < fewer.len() ==> more.contains(#[trigger] fewer[j]),
    ensures
        lo <= first_granted(policy, more, resource, names, lo) <= first_granted(
            policy,
            fewer,
            resource,
            names,
            lo,
        ) <= names.len() - 1,
    decreases names.len() - lo,
{
    if lo < names.len() - 1 {
        lemma_first_granted_monotone(policy, fewer, more, resource, names, lo + 1);
        if granted_at(policy, fewer, resource, names, lo) {
            let j = choose|j: int| 0 <= j < fewer.len() && #[trigger] policy(fewer[j], resource, names[lo]);
            assert(more.contains(fewer[j]));
            let k = choose|k: int| 0 <= k < more.len() && more[k] == fewer[j];
            assert(policy(more[k], resource, names[lo]));
            assert(granted_at(policy, more, resource, names, lo));
        }
    }
}

/// More groups never lose a permission: under one policy, a token whose
/// groups include every group of another gets, for each kind of action, a
/// level at least as permissive on the same resource.
pub proof fn lemma_more_groups_never_lose_permission(
    policy: spec_fn(Seq<char>, Seq<char>, Seq<char>) -> bool,
    fewer: Seq<Seq<char>>,
    more: Seq<Seq<char>>,
    resource: Seq<char>,
    config: PermissionConfig,
    checks_fewer: (Seq<PolicyCheck>, Seq<PolicyCheck>, Seq<PolicyCheck>, Seq<PolicyCheck>),
    checks_more: (Seq<PolicyCheck>, Seq<PolicyCheck>, Seq<PolicyCheck>, Seq<PolicyCheck>),
    p_fewer: PermissionSet,
    p_more: PermissionSet,
)
    requires
        forall|j: int| 0 <= j < fewer.len() ==> more.contains(#[trigger] fewer[j]),
        spec_decided(
            fewer,
            resource,
            config,
            checks_fewer.0,
            checks_fewer.1,
            checks_fewer.2,
            checks_fewer.3,
            Ok(p_fewer),
        ),
        spec_decided(
            more,
            resource,
            config,
            checks_more.0,
            checks_more.1,
            checks_more.2,
            checks_more.3,
            Ok(p_more),
        ),
        answers_agree(checks_fewer.0, policy),
        answers_agree(checks_fewer.1, policy),
        answers_agree(checks_fewer.2, policy),
        answers_agree(checks_fewer.3, policy),
        answers_agree(checks_more.0, policy),
        answers_agree(checks_more.1, policy),
        answers_agree(checks_more.2, policy),
        answers_agree(checks_more.3, policy),
    ensures
        p_more.read_level.spec_rank() <= p_fewer.read_level.spec_rank(),
        p_more.create_level.spec_rank() <= p_fewer.create_level.spec_rank(),
        p_more.update_level.spec_rank() <= p_fewer.update_level.spec_rank(),
        p_more.delete_level.spec_rank() <= p_fewer.delete_level.spec_rank(),
{
    lemma_decision_follows_policy(
        fewer,
        resource,
        config,
        checks_fewer.0,
        checks_fewer.1,
        checks_fewer.2,
        checks_fewer.3,
        p_fewer,
        policy,
    );
    lemma_decision_follows_policy(
        more,
        resource,
        config,
        checks_more.0,
        checks_more.1,
        checks_more.2,
        checks_more.3,
        p_more,
        policy,
    );
    lemma_first_granted_monotone(policy, fewer, more, resource, read_names(), config.min_read_level.spec_rank());
    lemma_first_granted_monotone(
        policy,
        fewer,
        more,
        resource,
        create_names(),
        config.min_create_level.spec_rank(),
    );
    lemma_first_granted_monotone(
        policy,
        fewer,
        more,
        resource,
        update_names(),
        config.min_update_level.spec_rank(),
    );
    lemma_first_granted_monotone(
        policy,
        fewer,
        more,
        resource,
        delete_names(),
        config.min_delete_level.spec_rank(),
    );
}

/// One search: for each level from rank `lo` on, asks the policy whether
/// any of `groups` holds it on `resource`, group by group, and stops at the
/// first level granted or at the first failure. The questions asked come
/// back with the answer.
fn search(
    enforcer: &Arc<Enforcer>,
    groups: &[String],
    resource: &str,
    names: &Vec<&str>,
    lo: usize,
) -> (r: (Result<usize, casbin::Error>, Vec<PolicyCheck>))
    requires
        lo < names@.len(),
    ensures
        follows_requests(r.1@, string_views(groups@), resource@, str_views(names@), lo as int),
        r.0 is Err <==> search_outcome(r.1@, groups@.len(), lo as int, names@.len() as int) is None,
        r.0 matches Ok(k) ==> search_outcome(r.1@, groups@.len(), lo as int, names@.len() as int) == Some(
            k as int,
        ),
        r.0 matches Err(e) ==> r.1@.len() > 0 && last_failure(r.1@) == e,
{
    let n = names.len();
    let m = groups.len();
    let ghost gv = string_views(groups@);
    let ghost nv = str_views(names@);
    let ghost full = requests(m as nat, lo as int, n as int);
    let mut checks: Vec<PolicyCheck> = Vec::new();
    let mut rank = lo;
    assert(requests(m as nat, lo as int, lo as int) =~= Seq::<(int, int)>::empty());
    while rank < n
        invariant
            n == names@.len(),
            m == groups@.len(),
            gv == string_views(groups@),
            nv == str_views(names@),
            full == requests(m as nat, lo as int, n as int),
            lo <= rank <= n,
            checks@.len() == requests(m as nat, lo as int, rank as int).len(),
            forall|i: int| 0 <= i < checks@.len() ==> (#[trigger] checks@[i]).spec_subject() == gv[full[i].0],
            forall|i: int| 0 <= i < checks@.len() ==> (#[trigger] checks@[i]).spec_object() == resource@,
            forall|i: int| 0 <= i < checks@.len() ==> (#[trigger] checks@[i]).spec_action() == nv[full[i].1],
            forall|i: int| 0 <= i < checks@.len() ==> (#[trigger] checks@[i]).spec_answer() == Some(false),
        decreases n - rank,
    {
        proof {
            lemma_requests_split(m as nat, lo as int, rank as int, n as int);
            lemma_requests_split(m as nat, lo as int, rank as int, rank + 1);
            assert(requests(m as nat, rank as int, n as int) =~= row(m as nat, rank as int) + requests(
                m as nat,
                rank + 1,
                n as int,
            ));
            assert(requests(m as nat, rank + 1, rank + 1) =~= Seq::<(int, int)>::empty());
            assert(requests(m as nat, rank as int, rank + 1) =~= row(m as nat, rank as int));
        }
        let ghost base = requests(m as nat, lo as int, rank as int).len();
        let mut j: usize = 0;
        while j < m
            invariant
                n == names@.len(),
                m == groups@.len(),
                gv == string_views(groups@),
                nv == str_views(names@),
                full == requests(m as nat, lo as int, n as int),
                full == requests(m as nat, lo as int, rank as int) + (row(m as nat, rank as int) + requests(
                    m as nat,
                    rank + 1,
                    n as int,
                )),
                base == requests(m as nat, lo as int, rank as int).len(),
                lo <= rank < n,
                j <= m,
                checks@.len() == base + j,
                forall|i: int| 0 <= i < checks@.len() ==> (#[trigger] checks@[i]).spec_subject() == gv[full[i].0],
                forall|i: int| 0 <= i < checks@.len() ==> (#[trigger] checks@[i]).spec_object() == resource@,
                forall|i: int| 0 <= i < checks@.len() ==> (#[trigger] checks@[i]).spec_action() == nv[full[i].1],
                forall|i: int| 0 <= i < checks@.len() ==> (#[trigger] checks@[i]).spec_answer() == Some(false),
            decreases m - j,
        {
            let (check, allowed) = PolicyCheck::ask(enforcer, groups[j].as_str(), resource, names[rank]);
            proof {
                assert(full[base + j] == (j as int, rank as int));
                assert(gv[j as int] == groups@[j as int]@);
                assert(nv[rank as int] == names@[rank as int]@);
            }
            let ghost before = checks@;
            checks.push(check);
            proof {
                assert forall|i: int| 0 <= i < before.len() implies checks@[i] == before[i] by {}
            }
            match allowed {
                Err(e) => {
                    return (Err(e), checks);
                },
                Ok(b) => {
                    if b {
                        return (Ok(rank), checks);
                    }
                },
            }
            j = j + 1;
        }
        rank = rank + 1;
    }
    (Ok(n - 1), checks)
}

impl PermissionSet {
    /// The permission set with nothing granted.
    pub open spec fn spec_none() -> PermissionSet {
        PermissionSet {
            read_level: ReadLevel::NoPermission,
            create_level: CreateLevel::NoPermission,
            update_level: UpdateLevel::NoPermission,
            delete_level: DeleteLevel::NoPermission,
        }
    }

    /// Whether no level is more permissive than the configured one.
    pub open spec fn within(self, config: PermissionConfig) -> bool {
        &&& self.read_level.spec_rank() >= config.min_read_level.spec_rank()
        &&& self.create_level.spec_rank() >= config.min_create_level.spec_rank()
        &&& self.update_level.spec_rank() >= config.min_update_level.spec_rank()
        &&& self.delete_level.spec_rank() >= config.min_delete_level.spec_rank()
    }

    /// Whether `outcome` is what deciding the permissions of `groups` on
    /// `resource` gives for some answers of the policy.
    pub open spec fn decided_by_policy(
        groups: Seq<Seq<char>>,
        resource: Seq<char>,
        config: PermissionConfig,
        outcome: Result<PermissionSet, AuthorizationError>,
    ) -> bool {
        exists|rd: Seq<PolicyCheck>, cr: Seq<PolicyCheck>, up: Seq<PolicyCheck>, de: Seq<PolicyCheck>|
            spec_decided(groups, resource, config, rd, cr, up, de, outcome)
    }

    /// Decides the permissions of the token's groups on `resource_name` by
    /// asking the policy, and hands back the questions asked with their
    /// answers: for each kind of action in turn, the levels from the
    /// configured one down are tried, each against every group, and the
    /// first level granted to any group is taken; no permission when none
    /// is. A failure of the engine ends the decision with its error.
    pub fn decide(
        resource_name: &str,
        enforcer: &Arc<Enforcer>,
        token: &AuthenticatedToken,
        config: PermissionConfig,
    ) -> (r: (Result<Self, AuthorizationError>, PolicyChecks))
        ensures
            spec_decided(
                token.group_names(),
                resource_name@,
                config,
                r.1.read@,
                r.1.create@,
                r.1.update@,
                r.1.delete@,
                r.0,
            ),
    {
        let groups = token.groups();
        let read_level_names = vec![
            ReadLevel::ReadAll.as_str(),
            ReadLevel::Read.as_str(),
            ReadLevel::NoPermission.as_str(),
        ];
        let create_level_names = vec![CreateLevel::Create.as_str(), CreateLevel::NoPermission.as_str()];
        let update_level_names = vec![
            UpdateLevel::UpdateAll.as_str(),
            UpdateLevel::Update.as_str(),
            UpdateLevel::NoPermission.as_str(),
        ];
        let delete_level_names = vec![
            DeleteLevel::DeleteAll.as_str(),
            DeleteLevel::Delete.as_str(),
            DeleteLevel::NoPermission.as_str(),
        ];
        proof {
            assert(str_views(read_level_names@) =~= read_names());
            assert(str_views(create_level_names@) =~= create_names());
            assert(str_views(update_level_names@) =~= update_names());
            assert(str_views(delete_level_names@) =~= delete_names());
        }
        let (read, read_checks) = search(enforcer, groups, resource_name, &read_level_names, config.min_read_level.rank());
        let read = match read {
            Ok(k) => k,
            Err(e) => {
                let checks = PolicyChecks { read: read_checks, create: Vec::new(), update: Vec::new(), delete: Vec::new() };
                return (Err(AuthorizationError::Policy(e)), checks);
            },
        };
        let (create, create_checks) = search(
            enforcer,
            groups,
            resource_name,
            &create_level_names,
            config.min_create_level.rank(),
        );
        let create = match create {
            Ok(k) => k,
            Err(e) => {
                let checks = PolicyChecks {
                    read: read_checks,
                    create: create_checks,
                    update: Vec::new(),
                    delete: Vec::new(),
                };
                return (Err(AuthorizationError::Policy(e)), checks);
            },
        };
        let (update, update_checks) = search(
            enforcer,
            groups,
            resource_name,
            &update_level_names,
            config.min_update_level.rank(),
        );
        let update = match update {
            Ok(k) => k,
            Err(e) => {
                let checks = PolicyChecks {
                    read: read_checks,
                    create: create_checks,
                    update: update_checks,
                    delete: Vec::new(),
                };
                return (Err(AuthorizationError::Policy(e)), checks);
            },
        };
        let (delete, delete_checks) = search(
            enforcer,
            groups,
            resource_name,
            &delete_level_names,
            config.min_delete_level.rank(),
        );
        let checks = PolicyChecks {
            read: read_checks,
            create: create_checks,
            update: update_checks,
            delete: delete_checks,
        };
        match delete {
            Ok(delete) => {
                let p = PermissionSet {
                    read_level: ReadLevel::from_rank(read),
                    create_level: CreateLevel::from_rank(create),
                    update_level: UpdateLevel::from_rank(update),
                    delete_level: DeleteLevel::from_rank(delete),
                };
                (Ok(p), checks)
            },
            Err(e) => (Err(AuthorizationError::Policy(e)), checks),
        }
    }

    /// Finds the permissions of the token's groups on `resource_name`, as
    /// `decide` does: the permissions are those that the policy's answers
    /// decide, never beyond the configured levels, and a token without
    /// groups gets no permission without a question asked.
    pub fn new(
        resource_name: &str,
        enforcer: &Arc<Enforcer>,
        token: &AuthenticatedToken,
        config: PermissionConfig,
    ) -> (r: Result<Self, AuthorizationError>)
        ensures
            Self::decided_by_policy(token.group_names(), resource_name@, config, r),
            r matches Ok(p) ==> p.within(config),
            token.group_names().len() == 0 ==> r == Ok::<Self, AuthorizationError>(Self::spec_none()),
    {
        let (r, checks) = Self::decide(resource_name, enforcer, token, config);
        proof {
            let g = token.group_names();
            lemma_requests_bounds(g.len(), config.min_read_level.spec_rank(), 3);
            lemma_requests_bounds(g.len(), config.min_create_level.spec_rank(), 2);
            lemma_requests_bounds(g.len(), config.min_update_level.spec_rank(), 3);
            lemma_requests_bounds(g.len(), config.min_delete_level.spec_rank(), 3);
            assert(spec_decided(
                g,
                resource_name@,
                config,
                checks.read@,
                checks.create@,
                checks.update@,
                checks.delete@,
                r,
            ));
        }
        r
    }
}

} // verus!
