use std::sync::Arc;

use casbin::{CoreApi, Enforcer};
use vstd::prelude::*;

verus! {

/// A request put to the policy, and the answer that came back.
struct PolicyAnswer {
    subject: String,
    object: String,
    action: String,
    allowed: Result<bool, casbin::Error>,
}

/// Asks casbin's `CoreApi::enforce` whether `subject` may do `action` on
/// `object`, and hands the answer back with the request it answers. The
/// answer, or the error, depends on the model and policy loaded in
/// `enforcer`; the contract leaves it open and says only which request it
/// belongs to.
#[verifier::external_body]
fn enforce_request(enforcer: &Arc<Enforcer>, subject: &str, object: &str, action: &str) -> (r: PolicyAnswer)
    ensures
        r.subject@ == subject@,
        r.object@ == object@,
        r.action@ == action@,
{
    let allowed = enforcer.enforce((subject, object, action));
    PolicyAnswer { subject: subject.to_owned(), object: object.to_owned(), action: action.to_owned(), allowed }
}

/// A question put to the policy while deciding a permission, and its
/// answer: `Some` of whether the level is granted, `None` when the engine
/// failed, with the engine's error kept beside it. A check is made only by
/// asking the policy.
pub struct PolicyCheck {
    subject: String,
    object: String,
    action: String,
    answer: Option<bool>,
    failure: Ghost<Option<casbin::Error>>,
}

impl PolicyCheck {
    /// Who was asked about.
    pub closed spec fn spec_subject(&self) -> Seq<char> {
        self.subject@
    }

    /// The resource asked about.
    pub closed spec fn spec_object(&self) -> Seq<char> {
        self.object@
    }

    /// The level asked about, by its policy name.
    pub closed spec fn spec_action(&self) -> Seq<char> {
        self.action@
    }

    /// Whether the level was granted; `None` when the engine failed.
    pub closed spec fn spec_answer(&self) -> Option<bool> {
        self.answer
    }

    /// The engine's error, when it failed.
    pub closed spec fn spec_failure(&self) -> Option<casbin::Error> {
        self.failure@
    }

    /// Asks the policy whether `subject` may do `action` on `object`: the
    /// check records the question, and the engine's answer comes back
    /// beside it.
    pub fn ask(enforcer: &Arc<Enforcer>, subject: &str, object: &str, action: &str) -> (r: (
        PolicyCheck,
        Result<bool, casbin::Error>,
    ))
        ensures
            r.0.spec_subject() == subject@,
            r.0.spec_object() == object@,
            r.0.spec_action() == action@,
            r.1 matches Ok(b) ==> r.0.spec_answer() == Some(b) && r.0.spec_failure() is None,
            r.1 matches Err(e) ==> r.0.spec_answer() is None && r.0.spec_failure() == Some(e),
    {
        let PolicyAnswer { subject, object, action, allowed } = enforce_request(enforcer, subject, object, action);
        match allowed {
            Ok(b) => (PolicyCheck { subject, object, action, answer: Some(b), failure: Ghost(None) }, Ok(b)),
            Err(e) => (
                PolicyCheck { subject, object, action, answer: None, failure: Ghost(Some(e)) },
                Err(e),
            ),
        }
    }

    /// Who was asked about.
    pub fn subject(&self) -> (r: &str)
        ensures
            r@ == self.spec_subject(),
    {
        self.subject.as_str()
    }

    /// The resource asked about.
    pub fn object(&self) -> (r: &str)
        ensures
            r@ == self.spec_object(),
    {
        self.object.as_str()
    }

    /// The level asked about, by its policy name.
    pub fn action(&self) -> (r: &str)
        ensures
            r@ == self.spec_action(),
    {
        self.action.as_str()
    }

    /// Whether the level was granted; `None` when the engine failed.
    pub fn answer(&self) -> (r: Option<bool>)
        ensures
            r == self.spec_answer(),
    {
        self.answer
    }
}

} // verus!
