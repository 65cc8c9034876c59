//! The top-level error surface a caller of the library sees.

use vstd::prelude::*;

verus! {

use vstd::string::StringExecFns;

/// Errors that cut across the whole client.
#[derive(Clone, Debug)]
pub enum RavenDbError {
    /// The server refused the client's credentials.
    BadAuthorization,
    /// The named database does not exist on the cluster.
    DatabaseDoesNotExist(String),
    UnexpectedError(String),
}

impl RavenDbError {
    pub open spec fn message_spec(self) -> Seq<char> {
        match self {
            RavenDbError::BadAuthorization =>
                "Invalid authorization, ensure valid certificate supplied"@,
            RavenDbError::DatabaseDoesNotExist(db) => "Database `"@ + db@ + "` does not exist"@,
            RavenDbError::UnexpectedError(s) => s@,
        }
    }

    /// A human-readable description of the error.
    pub fn message(&self) -> (r: String)
        ensures
            r@ == self.message_spec(),
    {
        match self {
            RavenDbError::BadAuthorization => String::from_str(
                "Invalid authorization, ensure valid certificate supplied",
            ),
            RavenDbError::DatabaseDoesNotExist(db) => {
                let mut m = String::from_str("Database `");
                m.append(db.as_str());
                m.append("` does not exist");
                m
            },
            RavenDbError::UnexpectedError(s) => s.clone(),
        }
    }
}

} // verus!
