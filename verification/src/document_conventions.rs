//! Client-side behaviour switches shared by every executor a store creates.

use vstd::prelude::*;

verus! {

#[derive(Clone, Copy, Debug, PartialEq, Eq, Structural)]
pub struct DocumentConventions {
    pub disable_topology_updates: bool,
    pub send_application_identified: bool,
}

impl Default for DocumentConventions {
    fn default() -> (r: Self)
        ensures
            !r.disable_topology_updates,
            !r.send_application_identified,
    {
        DocumentConventions { disable_topology_updates: false, send_application_identified: false }
    }
}

impl DocumentConventions {
    /// Conventions for a store that talks to one fixed server.
    pub fn default_for_single_server() -> (r: Self)
        ensures
            !r.disable_topology_updates,
            !r.send_application_identified,
    {
        DocumentConventions { disable_topology_updates: false, send_application_identified: false }
    }

    pub fn topology_updates_disabled(&self) -> (r: bool)
        ensures
            r == self.disable_topology_updates,
    {
        self.disable_topology_updates
    }
}

} // verus!
