//! The reserved connection pool for proxy sockets. Only the endpoints of a
//! pooled connection and the broken-connection test are decided here.

use crate::packet::Endpoint;
use crate::redirect::RedirectPlan;
use vstd::prelude::*;

verus! {

/// What a pooled SOCKS5 connection leads to: the proxy and the destination.
#[derive(Debug, Clone, Copy, PartialEq, Eq, Structural)]
pub struct Socks5ConnectionManager {
    pub proxy_addr: Endpoint,
    pub target_addr: Endpoint,
}

impl Socks5ConnectionManager {
    pub fn from_plan(plan: &RedirectPlan) -> (r: Socks5ConnectionManager)
        ensures
            r.proxy_addr == plan.proxy,
            r.target_addr == plan.target,
    {
        Socks5ConnectionManager { proxy_addr: plan.proxy, target_addr: plan.target }
    }

    /// No connection is ever taken for broken without a probe.
    pub fn has_broken(&self) -> (r: bool)
        ensures
            !r,
    {
        false
    }
}

} // verus!
