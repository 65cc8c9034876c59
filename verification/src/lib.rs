//! Topology-aware client core for a clustered document database reached over
//! HTTP(S)/mTLS.
//!
//! Given a set of seed URLs the store discovers which nodes exist, picks a
//! node to serve each request, notices when the server says the cached
//! topology is stale, and refreshes it without blocking callers.  The actors
//! that own the mutable state are driven by message loops outside this
//! library; everything they decide — validation, node selection, command
//! rendering, topology replacement — lives here with a contract.

pub mod cluster_topology;
pub mod database_topology;
pub mod default_document_store;
pub mod document_conventions;
pub mod document_session;
pub mod document_store;
pub mod events;
pub mod node_selector;
pub mod raven_command;
pub mod ravendb_error;
pub mod request_executor;
pub mod server_node;
pub mod urls;

use vstd::prelude::*;

verus! {

/// Hostname overrides for name resolution: host name to IP address text.
pub type DnsOverrides = Vec<(String, String)>;

} // verus!
