//! Managed databases.

use vstd::prelude::*;

verus! {

/// The connection details of one database.
#[derive(Clone, Debug, PartialEq)]
pub struct DatabaseDetails {
    pub id: i32,
    pub database_name: String,
    pub username: String,
    pub password: String,
    pub host: String,
    pub port: u16,
    pub project_id: Option<i32>,
}

/// The body of a reply that describes the caller's database.
pub struct DatabaseDetailsResponse {
    pub database: DatabaseDetails,
}

/// The body of a reply to the creation of a database.
pub struct CreateDatabaseResponse {
    pub database: DatabaseDetails,
}

} // verus!
