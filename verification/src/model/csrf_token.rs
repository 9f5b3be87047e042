use vstd::prelude::*;

verus! {

/// An anti-forgery token handed out with a sign-in redirect.
#[derive(Debug, Default)]
pub struct CsrfToken {
    pub token: String,
}

} // verus!
