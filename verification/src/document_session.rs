//! Session-level value types.
//!
//! The session itself is a unit of work over a store handle and lives with
//! the I/O around this library; what belongs here is the data it carries.

use vstd::prelude::*;

verus! {

/// The server version a session learned from its cluster.
#[derive(Clone, Debug)]
pub struct RavenDbVersion(pub String);

impl RavenDbVersion {
    pub fn new(version: String) -> (r: Self)
        ensures
            r.0 == version,
    {
        RavenDbVersion(version)
    }

    pub fn as_str(&self) -> (r: &str)
        ensures
            r@ == self.0@,
    {
        self.0.as_str()
    }
}

} // verus!
