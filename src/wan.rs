use vstd::prelude::*;

verus! {

/// An uplink whose health gates a group of routes on the router.
pub struct WanInterface {
    /// The label shown to the operator.
    pub name: String,
    /// The local interface that probes leave through.
    pub probe_interface: String,
    /// The comments that identify this WAN's routes, in the order they are handled.
    pub routes: Vec<String>,
}

impl WanInterface {
    /// A WAN governs at least one route.
    pub open spec fn wf(&self) -> bool {
        self.routes@.len() > 0
    }

    /// The WAN with these parts, or `None` where `routes` is empty.
    pub fn new(name: String, probe_interface: String, routes: Vec<String>) -> (r: Option<WanInterface>)
        ensures
            routes@.len() == 0 <==> r.is_none(),
            r matches Some(w) ==> w.wf() && w.name == name && w.probe_interface == probe_interface
                && w.routes == routes,
    {
        if routes.len() == 0 {
            None
        } else {
            Some(WanInterface { name, probe_interface, routes })
        }
    }
}

} // verus!
