//! Request authentication and identity bootstrap for an HTTP service backed
//! by a local peer-identity store.
//!
//! The crate holds the decision logic of that subsystem, verified:
//! - the service-wide bearer-credential gate and its error mapping
//!   ([`gate`]),
//! - the `Cookie` header grammar used to find the caller's session cookie
//!   ([`cookie`]),
//! - the step-by-step session resolution against the external identity
//!   provider, its fail-open policy, and the strict session guard
//!   ([`resolver`]),
//! - the one-time selection or creation of the service's own author
//!   identity ([`bootstrap`]).
//!
//! All network and store I/O stays outside: callers perform each call and
//! hand its outcome to the next decision function.

pub mod bootstrap;
pub mod cookie;
pub mod gate;
pub mod resolver;
pub mod session;
