use std::marker::PhantomData;
use vstd::prelude::*;

verus! {

/// A policy: which action set a role holds on a resource.
pub struct Policy<Resource, ActionSet, Role> {
    resource: PhantomData<Resource>,
    action: PhantomData<ActionSet>,
    role: PhantomData<Role>,
}

} // verus!
