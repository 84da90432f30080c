//! The database endpoints.

use crate::models::database::{CreateDatabaseResponse, DatabaseDetails, DatabaseDetailsResponse};
use crate::services::project_service::{
    detailed_outcome, project_path, project_url, result_error, spec_detailed_outcome, ApiError,
    ApiErrorView,
};
use crate::services::transport::{ApiRequest, HttpMethod, Reply};
use crate::text::{decimal, i64_to_decimal};
use vstd::prelude::*;

verus! {

/// The request that describes the caller's database.
pub fn get_my_database_request() -> (r: ApiRequest)
    ensures
        r.method == HttpMethod::Get,
        r.url@ == "/api/databases/mine"@,
{
    ApiRequest { method: HttpMethod::Get, url: String::from_str("/api/databases/mine") }
}

/// What a reply that describes the caller's database means: status 404 says that there is
/// none, whatever its body.
pub open spec fn spec_my_database(reply: Reply<DatabaseDetailsResponse, ApiError>) -> Result<
    DatabaseDetails,
    ApiErrorView,
> {
    if reply matches Reply::Refused { refusal, error } && refusal.spec_status() == 404 {
        Err(ApiErrorView { error_code: "NOT_FOUND"@, details: None })
    } else {
        match spec_detailed_outcome(reply) {
            Ok(body) => Ok(body.database),
            Err(e) => Err(e),
        }
    }
}

/// The caller's database, from the reply to `get_my_database_request`.
pub fn get_my_database(reply: Reply<DatabaseDetailsResponse, ApiError>) -> (r: Result<
    DatabaseDetails,
    ApiError,
>)
    ensures
        result_error(r) == spec_my_database(reply),
{
    let missing = match &reply {
        Reply::Refused { refusal, error } => refusal.status() == 404,
        _ => false,
    };
    if missing {
        return Err(ApiError::from_code(String::from_str("NOT_FOUND")));
    }
    match detailed_outcome(reply) {
        Ok(body) => Ok(body.database),
        Err(e) => Err(e),
    }
}

/// The request that creates a database for the caller.
pub fn create_database_request() -> (r: ApiRequest)
    ensures
        r.method == HttpMethod::Post,
        r.url@ == "/api/databases"@,
{
    ApiRequest { method: HttpMethod::Post, url: String::from_str("/api/databases") }
}

/// What a reply to the creation of a database means.
pub open spec fn spec_create_database(reply: Reply<CreateDatabaseResponse, ApiError>) -> Result<
    DatabaseDetails,
    ApiErrorView,
> {
    match spec_detailed_outcome(reply) {
        Ok(body) => Ok(body.database),
        Err(e) => Err(e),
    }
}

/// The new database, from the reply to `create_database_request`.
pub fn create_database(reply: Reply<CreateDatabaseResponse, ApiError>) -> (r: Result<
    DatabaseDetails,
    ApiError,
>)
    ensures
        result_error(r) == spec_create_database(reply),
{
    match detailed_outcome(reply) {
        Ok(body) => Ok(body.database),
        Err(e) => Err(e),
    }
}

/// The request that deletes database `db_id`.
pub fn delete_database_request(db_id: i32) -> (r: ApiRequest)
    ensures
        r.method == HttpMethod::Delete,
        r.url@ == "/api/databases/"@ + decimal(db_id as int),
{
    let mut url = String::from_str("/api/databases/");
    let id = i64_to_decimal(db_id as i64);
    url.append(id.as_str());
    ApiRequest { method: HttpMethod::Delete, url }
}

/// Whether the database was deleted, from the reply to `delete_database_request`.
pub fn delete_database(reply: Reply<(), ApiError>) -> (r: Result<(), ApiError>)
    ensures
        result_error(r) == spec_detailed_outcome(reply),
{
    detailed_outcome(reply)
}

/// The request that links database `db_id` to project `project_id`.
pub fn link_database_to_project_request(project_id: i32, db_id: i32) -> (r: ApiRequest)
    ensures
        r.method == HttpMethod::Put,
        r.url@ == project_path(project_id, "/database/"@ + decimal(db_id as int)),
{
    let mut url = project_url(project_id, "/database/");
    let id = i64_to_decimal(db_id as i64);
    url.append(id.as_str());
    ApiRequest { method: HttpMethod::Put, url }
}

/// Whether the database was linked, from the reply to `link_database_to_project_request`.
pub fn link_database_to_project(reply: Reply<(), ApiError>) -> (r: Result<(), ApiError>)
    ensures
        result_error(r) == spec_detailed_outcome(reply),
{
    detailed_outcome(reply)
}

/// The request that unlinks the database of project `project_id`.
pub fn unlink_database_from_project_request(project_id: i32) -> (r: ApiRequest)
    ensures
        r.method == HttpMethod::Delete,
        r.url@ == project_path(project_id, "/database"@),
{
    ApiRequest { method: HttpMethod::Delete, url: project_url(project_id, "/database") }
}

/// Whether the database was unlinked, from the reply to
/// `unlink_database_from_project_request`.
pub fn unlink_database_from_project(reply: Reply<(), ApiError>) -> (r: Result<(), ApiError>)
    ensures
        result_error(r) == spec_detailed_outcome(reply),
{
    detailed_outcome(reply)
}

/// The request that deletes the database linked to project `project_id`.
pub fn delete_linked_database_request(project_id: i32) -> (r: ApiRequest)
    ensures
        r.method == HttpMethod::Delete,
        r.url@ == project_path(project_id, "/database/delete"@),
{
    ApiRequest { method: HttpMethod::Delete, url: project_url(project_id, "/database/delete") }
}

/// Whether the linked database was deleted, from the reply to
/// `delete_linked_database_request`.
pub fn delete_linked_database(reply: Reply<(), ApiError>) -> (r: Result<(), ApiError>)
    ensures
        result_error(r) == spec_detailed_outcome(reply),
{
    detailed_outcome(reply)
}

} // verus!
