use vstd::prelude::*;

verus! {

/// The OpenAPI description of the service.
pub struct DocsApi;

/// Adds the OpenID Connect security scheme to the OpenAPI description.
pub struct SecurityAddon;

} // verus!
