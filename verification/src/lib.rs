//! Subscription router for a publish/subscribe relay.
//!
//! The crate models the control plane of a desktop relay that bridges a
//! typed message bus to a presentation sink: a closed catalog of message
//! kinds, the lifecycle of topic subscriptions, and the handover protocol
//! that atomically replaces one set of live subscriptions with another.
//! All network and user-interface work is performed by a thin unverified
//! shell that drives these functions and carries out the actions they
//! return.

pub mod catalog;
pub mod config;
pub mod outbound;
pub mod router;
pub mod subs;

use vstd::prelude::*;

verus! {

/// A remote publisher on the bus: address and port. Immutable once a
/// connection has been built from it.
pub struct Endpoint {
    pub ip: String,
    pub port: u16,
}

/// Clones a string, keeping its characters.
pub fn clone_string(s: &String) -> (r: String)
    ensures
        r@ == s@,
{
    s.clone()
}

} // verus!
