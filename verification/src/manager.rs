//! General start-up options of a node manager.

use vstd::prelude::*;

verus! {

/// The general options a node manager is created with.  The persistence
/// and transport handles of the running system stay outside this core;
/// what the manager's logic reads is kept here as plain values.
#[derive(Debug)]
pub struct NodeManagerGeneralOptions {
    /// The name of the node.
    pub node_name: String,
    /// Whether the default services are started with the node.
    pub start_default_services: bool,
    /// The port of the status endpoint, when one is served.
    pub status_endpoint_port: Option<u16>,
    /// Whether the node's state is kept across restarts.
    pub persistent: bool,
}

impl NodeManagerGeneralOptions {
    /// Bundle the general options.
    pub fn new(
        node_name: String,
        start_default_services: bool,
        status_endpoint_port: Option<u16>,
        persistent: bool,
    ) -> (r: NodeManagerGeneralOptions)
        ensures
            r.node_name@ == node_name@,
            r.start_default_services == start_default_services,
            r.status_endpoint_port == status_endpoint_port,
            r.persistent == persistent,
    {
        NodeManagerGeneralOptions {
            node_name,
            start_default_services,
            status_endpoint_port,
            persistent,
        }
    }
}

} // verus!
