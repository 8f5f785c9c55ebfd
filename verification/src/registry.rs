//! An explicit, owned registry of route descriptors. The adapter builds one
//! at startup and passes it into the dispatch layer — there is no ambient
//! global route table. Read-only for the lifetime of the process once built.

use vstd::prelude::*;
use crate::routing::RouteInfo;

verus! {

/// The routes registered by the adapter, in registration order. Registration
/// never deduplicates: two descriptors with the same path and method are two
/// handlers.
pub struct RouteRegistry {
    routes: Vec<RouteInfo>,
}

impl RouteRegistry {
    /// The registered routes, in order.
    pub closed spec fn spec_routes(&self) -> Seq<RouteInfo> {
        self.routes@
    }

    /// An empty registry.
    pub fn new() -> (r: RouteRegistry)
        ensures
            r.spec_routes() == Seq::<RouteInfo>::empty(),
    {
        RouteRegistry { routes: Vec::new() }
    }

    /// Appends one route, keeping registration order.
    pub fn register(&mut self, route: RouteInfo)
        ensures
            final(self).spec_routes() == old(self).spec_routes().push(route),
    {
        self.routes.push(route);
    }

    /// How many routes are registered.
    pub fn len(&self) -> (n: usize)
        ensures
            n == self.spec_routes().len(),
    {
        self.routes.len()
    }

    /// The route at position `i`, in registration order.
    pub fn get(&self, i: usize) -> (route: &RouteInfo)
        requires
            i < self.spec_routes().len(),
        ensures
            *route == self.spec_routes()[i as int],
    {
        &self.routes[i]
    }
}

} // verus!
