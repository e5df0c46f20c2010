//! The routing table of the host: the capability each platform provides,
//! and the lifecycle that decides when routes are installed and removed.

use vstd::prelude::*;

verus! {

/// Route management of one platform.
pub trait RouteTable: Sync {
    fn add_route(&self);

    fn del_route(&self);

    fn init_route_table(&self);

    fn free_route_table(&self);
}

/// What the platform is to do on a lifecycle event.
#[derive(Debug, Clone, Copy, PartialEq, Eq, Structural)]
pub enum RouteStep {
    Install,
    Remove,
    Nothing,
}

/// Whether this process's routes are in place.
#[derive(Debug, Clone, Copy, PartialEq, Eq, Structural)]
pub struct RouteLifecycle {
    installed: bool,
}

pub open spec fn init_step(installed: bool) -> (bool, RouteStep) {
    (true, if installed { RouteStep::Nothing } else { RouteStep::Install })
}

pub open spec fn free_step(installed: bool) -> (bool, RouteStep) {
    (false, if installed { RouteStep::Remove } else { RouteStep::Nothing })
}

impl RouteLifecycle {
    pub closed spec fn is_installed(&self) -> bool {
        self.installed
    }

    pub fn new() -> (r: RouteLifecycle)
        ensures
            !r.is_installed(),
    {
        RouteLifecycle { installed: false }
    }

    /// Routes are installed once: a second init installs nothing more.
    pub fn init_route_table(&mut self) -> (r: RouteStep)
        ensures
            (final(self).is_installed(), r) == init_step(old(self).is_installed()),
    {
        let was = self.installed;
        self.installed = true;
        if was {
            RouteStep::Nothing
        } else {
            RouteStep::Install
        }
    }

    /// Freeing never fails: without routes of ours it does nothing.
    pub fn free_route_table(&mut self) -> (r: RouteStep)
        ensures
            (final(self).is_installed(), r) == free_step(old(self).is_installed()),
    {
        let was = self.installed;
        self.installed = false;
        if was {
            RouteStep::Remove
        } else {
            RouteStep::Nothing
        }
    }
}

/// From any state, init then free leaves no routes of ours, removes what init
/// installed, and a second free has nothing to do.
pub proof fn lemma_init_free_free(installed: bool)
    ensures
        ({
            let (a, s1) = init_step(installed);
            let (b, s2) = free_step(a);
            let (c, s3) = free_step(b);
            &&& s1 != RouteStep::Remove
            &&& s2 == RouteStep::Remove
            &&& s3 == RouteStep::Nothing
            &&& !c
        }),
{
}

} // verus!
