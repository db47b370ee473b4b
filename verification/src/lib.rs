//! Capture of an OAuth2 authorization-code redirect for an application that
//! has no routable public redirect endpoint.
//!
//! Two capture mechanisms share one redirect address:
//! - a single-shot loopback listener (the system browser performs the
//!   redirect; [`listener`] holds the verified request/response logic, the
//!   actual socket work lives outside the library);
//! - navigation interception inside an embedded browsing surface ([`nav`]),
//!   which deposits the captured URL into a take-once slot ([`store`]).
use vstd::prelude::*;

pub mod decimal;
pub mod listener;
pub mod nav;
pub mod page;
pub mod request;
pub mod response;
pub mod store;
pub mod text;

verus! {

/// Port on which the identity provider's loopback redirect arrives.  It must
/// equal the port encoded in the redirect URI of the provider-side
/// application registration.
pub const OAUTH_REDIRECT_PORT: u16 = 39171;

/// Milliseconds to wait after vetoing an intercepted navigation before
/// steering the browsing surface back to the application's own page.
pub const RETURN_NAVIGATION_DELAY_MS: u64 = 300;

} // verus!
