//! What the service settles before it serves: where the database is, which
//! database and collection hold the users, which index keeps usernames
//! unique, and where the service listens.

use vstd::prelude::*;
use vstd::string::StringExecFns;

verus! {

/// The database that holds the collection.
pub const DATABASE: &'static str = "myApp";

/// The collection that holds the users.
pub const COLLECTION: &'static str = "users";

/// Where the database is taken to be when nothing is configured.
pub const DEFAULT_URI: &'static str = "mongodb://localhost:27017";

/// The address on which the service listens.
pub const BIND_HOST: &'static str = "127.0.0.1";

/// The port on which the service listens.
pub const BIND_PORT: u16 = 8080;

/// An index over one field of the stored documents.
#[derive(Debug, PartialEq, Eq)]
pub struct FieldIndex {
    /// The field that the index is on.
    pub field: String,
    /// The order of the keys: 1 for ascending, -1 for descending.
    pub direction: i32,
    /// Whether the database refuses a second document with the same value.
    pub unique: bool,
}

/// The connection string: the configured one where there is one, else the
/// default.
pub fn connection_uri(configured: Option<String>) -> (uri: String)
    ensures
        uri@ == match configured {
            Some(given) => given@,
            None => DEFAULT_URI@,
        },
{
    match configured {
        Some(given) => given,
        None => String::from_str(DEFAULT_URI),
    }
}

/// The index that the service asks the database for before it serves: an
/// ascending one on `username` that refuses a username twice.
pub fn username_index() -> (index: FieldIndex)
    ensures
        index.field@ == "username"@,
        index.direction == 1,
        index.unique,
{
    FieldIndex { field: String::from_str("username"), direction: 1, unique: true }
}

} // verus!
