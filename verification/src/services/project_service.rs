//! The project endpoints: the request behind each operation and the meaning of its reply.

use crate::models::project::{
    DeployPayload, DownProjectInfo, DownProjectsResponse, Project, ProjectDetails,
    ProjectDetailsResponse, ProjectsResponse, UpdateEnvPayload,
};
use crate::services::transport::{
    http_error_code, make_http_error_code, result_text, simple_outcome, spec_simple_outcome,
    ApiRequest, Dispatch, HttpMethod, Reply,
};
use crate::text::{decimal, i64_to_decimal};
use vstd::prelude::*;

verus! {

/// A structured error: a code that selects the message, and optional details.
#[derive(Clone, Debug, PartialEq)]
pub struct ApiError {
    pub error_code: String,
    pub details: Option<String>,
}

/// An `ApiError` as plain texts.
pub struct ApiErrorView {
    pub error_code: Seq<char>,
    pub details: Option<Seq<char>>,
}

impl View for ApiError {
    type V = ApiErrorView;

    open spec fn view(&self) -> ApiErrorView {
        ApiErrorView {
            error_code: self.error_code@,
            details: match self.details {
                Some(d) => Some(d@),
                None => None,
            },
        }
    }
}

impl ApiError {
    /// An error that holds `code` and no details.
    pub fn from_code(code: String) -> (e: ApiError)
        ensures
            e.error_code == code,
            e.details is None,
    {
        ApiError { error_code: code, details: None }
    }

    /// An error that holds the code `code` and the details `details`.
    pub fn with_details(code: &str, details: String) -> (e: ApiError)
        ensures
            e@ == (ApiErrorView { error_code: code@, details: Some(details@) }),
    {
        ApiError { error_code: String::from_str(code), details: Some(details) }
    }
}

/// The body of a reply to a status request.
pub struct StatusResponse {
    pub status: Option<String>,
}

/// The body of a reply to a logs request.
pub struct LogsResponse {
    pub logs: String,
}

/// What is sent to replace a project's image.
pub struct UpdateImagePayload {
    pub new_image_url: String,
}

/// What is sent to add a participant.
pub struct ParticipantPayload {
    pub participant_id: String,
}

/// A result with its error taken by view.
pub open spec fn result_error<T>(r: Result<T, ApiError>) -> Result<T, ApiErrorView> {
    match r {
        Ok(v) => Ok(v),
        Err(e) => Err(e@),
    }
}

// ---------------------------------------------------------------------------
// Refusals
// ---------------------------------------------------------------------------

/// The error code of a refusal: the one in its structured body, or else the one made from
/// its status.
pub fn parse_simple_error_response(status: u16, body: Option<String>) -> (code: String)
    ensures
        code@ == match body {
            Some(c) => c@,
            None => http_error_code(status),
        },
{
    match body {
        Some(c) => c,
        None => make_http_error_code(status),
    }
}

/// The error of a refusal: its structured body unchanged, or else an error without details
/// whose code is made from its status.
pub fn parse_detailed_error_response(status: u16, body: Option<ApiError>) -> (error: ApiError)
    ensures
        error@ == match body {
            Some(e) => e@,
            None => (ApiErrorView { error_code: http_error_code(status), details: None }),
        },
        body is Some ==> error == body->0,
{
    match body {
        Some(e) => e,
        None => ApiError::from_code(make_http_error_code(status)),
    }
}

/// What a status-checked reply means where errors are structured.
pub open spec fn spec_detailed_outcome<T>(reply: Reply<T, ApiError>) -> Result<T, ApiErrorView> {
    match reply {
        Reply::Unreachable(e) => Err(
            ApiErrorView { error_code: "NETWORK_ERROR"@, details: Some(e@) },
        ),
        Reply::Refused { refusal, error } => Err(
            match error {
                Some(e) => e@,
                None => (ApiErrorView {
                    error_code: http_error_code(refusal.spec_status()),
                    details: None,
                }),
            },
        ),
        Reply::Accepted(Ok(body)) => Ok(body),
        Reply::Accepted(Err(e)) => Err(
            ApiErrorView { error_code: "RESPONSE_PARSE_ERROR"@, details: Some(e@) },
        ),
    }
}

/// Reads a status-checked reply where errors are structured.
pub fn detailed_outcome<T>(reply: Reply<T, ApiError>) -> (r: Result<T, ApiError>)
    ensures
        result_error(r) == spec_detailed_outcome(reply),
{
    match reply {
        Reply::Unreachable(e) => Err(ApiError::with_details("NETWORK_ERROR", e)),
        Reply::Refused { refusal, error } => Err(
            parse_detailed_error_response(refusal.status(), error),
        ),
        Reply::Accepted(Ok(body)) => Ok(body),
        Reply::Accepted(Err(e)) => Err(ApiError::with_details("RESPONSE_PARSE_ERROR", e)),
    }
}

/// What the outcome of a request with a payload means; `not_encoded` is the code that
/// stands for a payload that could not be encoded.
pub open spec fn spec_dispatch_outcome<T>(
    dispatch: Dispatch<T, ApiError>,
    not_encoded: Seq<char>,
) -> Result<T, ApiErrorView> {
    match dispatch {
        Dispatch::NotEncoded => Err(ApiErrorView { error_code: not_encoded, details: None }),
        Dispatch::Sent(reply) => spec_detailed_outcome(reply),
    }
}

/// Reads the outcome of a request with a payload.
pub fn dispatch_outcome<T>(dispatch: Dispatch<T, ApiError>, not_encoded: &str) -> (r: Result<
    T,
    ApiError,
>)
    ensures
        result_error(r) == spec_dispatch_outcome(dispatch, not_encoded@),
{
    match dispatch {
        Dispatch::NotEncoded => Err(ApiError::from_code(String::from_str(not_encoded))),
        Dispatch::Sent(reply) => detailed_outcome(reply),
    }
}

// ---------------------------------------------------------------------------
// Paths
// ---------------------------------------------------------------------------

/// The path of project `project_id`, followed by `tail`.
pub open spec fn project_path(project_id: i32, tail: Seq<char>) -> Seq<char> {
    "/api/projects/"@ + decimal(project_id as int) + tail
}

/// Builds the path of project `project_id`, followed by `tail`.
pub fn project_url(project_id: i32, tail: &str) -> (url: String)
    ensures
        url@ == project_path(project_id, tail@),
{
    let mut url = String::from_str("/api/projects/");
    let id = i64_to_decimal(project_id as i64);
    url.append(id.as_str());
    url.append(tail);
    url
}

fn request(method: HttpMethod, url: String) -> (r: ApiRequest)
    ensures
        r.method == method,
        r.url == url,
{
    ApiRequest { method, url }
}

// ---------------------------------------------------------------------------
// Listing projects
// ---------------------------------------------------------------------------

/// The request that lists the caller's own projects.
pub fn get_owned_projects_request() -> (r: ApiRequest)
    ensures
        r.method == HttpMethod::Get,
        r.url@ == "/api/projects/owned"@,
{
    request(HttpMethod::Get, String::from_str("/api/projects/owned"))
}

/// What a reply that lists projects means.
pub open spec fn spec_projects_outcome(reply: Reply<ProjectsResponse, String>) -> Result<
    Vec<Project>,
    Seq<char>,
> {
    match spec_simple_outcome(reply) {
        Ok(body) => Ok(body.projects),
        Err(e) => Err(e),
    }
}

fn projects_outcome(reply: Reply<ProjectsResponse, String>) -> (r: Result<Vec<Project>, String>)
    ensures
        result_text(r) == spec_projects_outcome(reply),
{
    match simple_outcome(reply) {
        Ok(body) => Ok(body.projects),
        Err(e) => Err(e),
    }
}

/// The caller's own projects, from the reply to `get_owned_projects_request`.
pub fn get_owned_projects(reply: Reply<ProjectsResponse, String>) -> (r: Result<
    Vec<Project>,
    String,
>)
    ensures
        result_text(r) == spec_projects_outcome(reply),
{
    projects_outcome(reply)
}

/// The request that lists the projects in which the caller takes part.
pub fn get_participating_projects_request() -> (r: ApiRequest)
    ensures
        r.method == HttpMethod::Get,
        r.url@ == "/api/projects/participations"@,
{
    request(HttpMethod::Get, String::from_str("/api/projects/participations"))
}

/// The projects in which the caller takes part, from the reply to
/// `get_participating_projects_request`.
pub fn get_participating_projects(reply: Reply<ProjectsResponse, String>) -> (r: Result<
    Vec<Project>,
    String,
>)
    ensures
        result_text(r) == spec_projects_outcome(reply),
{
    projects_outcome(reply)
}

/// The request that lists every project, for administrators.
pub fn get_all_projects_admin_request() -> (r: ApiRequest)
    ensures
        r.method == HttpMethod::Get,
        r.url@ == "/api/admin/projects"@,
{
    request(HttpMethod::Get, String::from_str("/api/admin/projects"))
}

/// Every project, from the reply to `get_all_projects_admin_request`.
pub fn get_all_projects_admin(reply: Reply<ProjectsResponse, String>) -> (r: Result<
    Vec<Project>,
    String,
>)
    ensures
        result_text(r) == spec_projects_outcome(reply),
{
    projects_outcome(reply)
}

// ---------------------------------------------------------------------------
// Deploying and deleting
// ---------------------------------------------------------------------------

/// The request that deploys a project; `payload` travels with it as JSON.
pub fn deploy_project_request(payload: DeployPayload) -> (r: (ApiRequest, DeployPayload))
    ensures
        r.0.method == HttpMethod::Post,
        r.0.url@ == "/api/projects/deploy"@,
        r.1 == payload,
{
    (request(HttpMethod::Post, String::from_str("/api/projects/deploy")), payload)
}

/// What the outcome of a deployment means.
pub open spec fn spec_deploy_outcome(
    dispatch: Dispatch<ProjectDetailsResponse, ApiError>,
) -> Result<ProjectDetails, ApiErrorView> {
    match spec_dispatch_outcome(dispatch, "CLIENT_SERIALIZATION_ERROR"@) {
        Ok(body) => Ok(body.project),
        Err(e) => Err(e),
    }
}

/// The deployed project, from the outcome of `deploy_project_request`.
pub fn deploy_project(dispatch: Dispatch<ProjectDetailsResponse, ApiError>) -> (r: Result<
    ProjectDetails,
    ApiError,
>)
    ensures
        result_error(r) == spec_deploy_outcome(dispatch),
{
    match dispatch_outcome(dispatch, "CLIENT_SERIALIZATION_ERROR") {
        Ok(body) => Ok(body.project),
        Err(e) => Err(e),
    }
}

/// The request that deletes project `project_id` for good.
pub fn purge_project_request(project_id: i32) -> (r: ApiRequest)
    ensures
        r.method == HttpMethod::Delete,
        r.url@ == project_path(project_id, Seq::empty()),
{
    let url = project_url(project_id, "");
    proof {
        reveal_strlit("");
    }
    request(HttpMethod::Delete, url)
}

/// Whether the project was deleted, from the reply to `purge_project_request`.
pub fn purge_project(reply: Reply<(), String>) -> (r: Result<(), String>)
    ensures
        result_text(r) == spec_simple_outcome(reply),
{
    simple_outcome(reply)
}

// ---------------------------------------------------------------------------
// Reading one project
// ---------------------------------------------------------------------------

/// The request that describes project `project_id`.
pub fn get_project_details_request(project_id: i32) -> (r: ApiRequest)
    ensures
        r.method == HttpMethod::Get,
        r.url@ == project_path(project_id, Seq::empty()),
{
    let url = project_url(project_id, "");
    proof {
        reveal_strlit("");
    }
    request(HttpMethod::Get, url)
}

/// What a reply that describes a project means.
pub open spec fn spec_details_outcome(reply: Reply<ProjectDetailsResponse, String>) -> Result<
    ProjectDetails,
    Seq<char>,
> {
    match spec_simple_outcome(reply) {
        Ok(body) => Ok(body.project),
        Err(e) => Err(e),
    }
}

/// The project's details, from the reply to `get_project_details_request`.
pub fn get_project_details(reply: Reply<ProjectDetailsResponse, String>) -> (r: Result<
    ProjectDetails,
    String,
>)
    ensures
        result_text(r) == spec_details_outcome(reply),
{
    match simple_outcome(reply) {
        Ok(body) => Ok(body.project),
        Err(e) => Err(e),
    }
}

/// The request that asks for the status of project `project_id`.
pub fn get_project_status_request(project_id: i32) -> (r: ApiRequest)
    ensures
        r.method == HttpMethod::Get,
        r.url@ == project_path(project_id, "/status"@),
{
    request(HttpMethod::Get, project_url(project_id, "/status"))
}

/// What a reply to a status request means.
pub open spec fn spec_status_outcome(reply: Reply<StatusResponse, String>) -> Result<
    Option<String>,
    Seq<char>,
> {
    match spec_simple_outcome(reply) {
        Ok(body) => Ok(body.status),
        Err(e) => Err(e),
    }
}

/// The project's status, absent where the backend knows none, from the reply to
/// `get_project_status_request`.
pub fn get_project_status(reply: Reply<StatusResponse, String>) -> (r: Result<
    Option<String>,
    String,
>)
    ensures
        result_text(r) == spec_status_outcome(reply),
{
    match simple_outcome(reply) {
        Ok(body) => Ok(body.status),
        Err(e) => Err(e),
    }
}

/// The request that asks for the logs of project `project_id`.
pub fn get_project_logs_request(project_id: i32) -> (r: ApiRequest)
    ensures
        r.method == HttpMethod::Get,
        r.url@ == project_path(project_id, "/logs"@),
{
    request(HttpMethod::Get, project_url(project_id, "/logs"))
}

/// What a reply to a logs request means.
pub open spec fn spec_logs_outcome(reply: Reply<LogsResponse, String>) -> Result<
    String,
    Seq<char>,
> {
    match spec_simple_outcome(reply) {
        Ok(body) => Ok(body.logs),
        Err(e) => Err(e),
    }
}

/// The project's logs, from the reply to `get_project_logs_request`.
pub fn get_project_logs(reply: Reply<LogsResponse, String>) -> (r: Result<String, String>)
    ensures
        result_text(r) == spec_logs_outcome(reply),
{
    match simple_outcome(reply) {
        Ok(body) => Ok(body.logs),
        Err(e) => Err(e),
    }
}

/// The request that asks for the metrics of project `project_id`.
pub fn get_project_metrics_request(project_id: i32) -> (r: ApiRequest)
    ensures
        r.method == HttpMethod::Get,
        r.url@ == project_path(project_id, "/metrics"@),
{
    request(HttpMethod::Get, project_url(project_id, "/metrics"))
}

/// The project's metrics, from the reply to `get_project_metrics_request`. `M` is the
/// decoded body.
pub fn get_project_metrics<M>(reply: Reply<M, String>) -> (r: Result<M, String>)
    ensures
        result_text(r) == spec_simple_outcome(reply),
{
    simple_outcome(reply)
}

// ---------------------------------------------------------------------------
// Lifecycle
// ---------------------------------------------------------------------------

/// The request that starts project `project_id`.
pub fn start_project_request(project_id: i32) -> (r: ApiRequest)
    ensures
        r.method == HttpMethod::Post,
        r.url@ == project_path(project_id, "/start"@),
{
    request(HttpMethod::Post, project_url(project_id, "/start"))
}

/// Whether the project was started, from the reply to `start_project_request`.
pub fn start_project(reply: Reply<(), String>) -> (r: Result<(), String>)
    ensures
        result_text(r) == spec_simple_outcome(reply),
{
    simple_outcome(reply)
}

/// The request that stops project `project_id`.
pub fn stop_project_request(project_id: i32) -> (r: ApiRequest)
    ensures
        r.method == HttpMethod::Post,
        r.url@ == project_path(project_id, "/stop"@),
{
    request(HttpMethod::Post, project_url(project_id, "/stop"))
}

/// Whether the project was stopped, from the reply to `stop_project_request`.
pub fn stop_project(reply: Reply<(), String>) -> (r: Result<(), String>)
    ensures
        result_text(r) == spec_simple_outcome(reply),
{
    simple_outcome(reply)
}

/// The request that restarts project `project_id`.
pub fn restart_project_request(project_id: i32) -> (r: ApiRequest)
    ensures
        r.method == HttpMethod::Post,
        r.url@ == project_path(project_id, "/restart"@),
{
    request(HttpMethod::Post, project_url(project_id, "/restart"))
}

/// Whether the project was restarted, from the reply to `restart_project_request`.
pub fn restart_project(reply: Reply<(), String>) -> (r: Result<(), String>)
    ensures
        result_text(r) == spec_simple_outcome(reply),
{
    simple_outcome(reply)
}

// ---------------------------------------------------------------------------
// Changing a project
// ---------------------------------------------------------------------------

/// The request that replaces the image of project `project_id`, and its payload.
pub fn update_project_image_request(project_id: i32, new_image_url: &str) -> (r: (
    ApiRequest,
    UpdateImagePayload,
))
    ensures
        r.0.method == HttpMethod::Put,
        r.0.url@ == project_path(project_id, "/image"@),
        r.1.new_image_url@ == new_image_url@,
{
    (
        request(HttpMethod::Put, project_url(project_id, "/image")),
        UpdateImagePayload { new_image_url: String::from_str(new_image_url) },
    )
}

/// Whether the image was replaced, from the outcome of `update_project_image_request`.
pub fn update_project_image(dispatch: Dispatch<(), ApiError>) -> (r: Result<(), ApiError>)
    ensures
        result_error(r) == spec_dispatch_outcome(dispatch, "CLIENT_SERIALIZATION_ERROR"@),
{
    dispatch_outcome(dispatch, "CLIENT_SERIALIZATION_ERROR")
}

/// The request that adds `participant_id` to project `project_id`, and its payload.
pub fn add_participant_request(project_id: i32, participant_id: &str) -> (r: (
    ApiRequest,
    ParticipantPayload,
))
    ensures
        r.0.method == HttpMethod::Post,
        r.0.url@ == project_path(project_id, "/participants"@),
        r.1.participant_id@ == participant_id@,
{
    (
        request(HttpMethod::Post, project_url(project_id, "/participants")),
        ParticipantPayload { participant_id: String::from_str(participant_id) },
    )
}

/// Whether the participant was added, from the outcome of `add_participant_request`.
pub fn add_participant(dispatch: Dispatch<(), ApiError>) -> (r: Result<(), ApiError>)
    ensures
        result_error(r) == spec_dispatch_outcome(dispatch, "CLIENT_ERROR"@),
{
    dispatch_outcome(dispatch, "CLIENT_ERROR")
}

/// The request that removes `participant_id` from project `project_id`.
pub fn remove_participant_request(project_id: i32, participant_id: &str) -> (r: ApiRequest)
    ensures
        r.method == HttpMethod::Delete,
        r.url@ == project_path(project_id, "/participants/"@ + participant_id@),
{
    let mut url = project_url(project_id, "/participants/");
    url.append(participant_id);
    request(HttpMethod::Delete, url)
}

/// Whether the participant was removed, from the reply to `remove_participant_request`.
pub fn remove_participant(reply: Reply<(), String>) -> (r: Result<(), String>)
    ensures
        result_text(r) == spec_simple_outcome(reply),
{
    simple_outcome(reply)
}

/// The request that replaces the environment of project `project_id`; `payload` travels
/// with it as JSON.
pub fn update_env_vars_request(project_id: i32, payload: UpdateEnvPayload) -> (r: (
    ApiRequest,
    UpdateEnvPayload,
))
    ensures
        r.0.method == HttpMethod::Put,
        r.0.url@ == project_path(project_id, "/env"@),
        r.1 == payload,
{
    (request(HttpMethod::Put, project_url(project_id, "/env")), payload)
}

/// Whether the environment was replaced, from the outcome of `update_env_vars_request`.
pub fn update_env_vars(dispatch: Dispatch<(), ApiError>) -> (r: Result<(), ApiError>)
    ensures
        result_error(r) == spec_dispatch_outcome(dispatch, "CLIENT_ERROR"@),
{
    dispatch_outcome(dispatch, "CLIENT_ERROR")
}

// ---------------------------------------------------------------------------
// Administration
// ---------------------------------------------------------------------------

/// The request that asks for the fleet's metrics.
pub fn get_global_metrics_admin_request() -> (r: ApiRequest)
    ensures
        r.method == HttpMethod::Get,
        r.url@ == "/api/admin/metrics"@,
{
    request(HttpMethod::Get, String::from_str("/api/admin/metrics"))
}

/// The fleet's metrics, from the reply to `get_global_metrics_admin_request`. `M` is the
/// decoded body.
pub fn get_global_metrics_admin<M>(reply: Reply<M, String>) -> (r: Result<M, String>)
    ensures
        result_text(r) == spec_simple_outcome(reply),
{
    simple_outcome(reply)
}

/// The request that lists the projects that are down.
pub fn get_down_projects_admin_request() -> (r: ApiRequest)
    ensures
        r.method == HttpMethod::Get,
        r.url@ == "/api/admin/projects/down"@,
{
    request(HttpMethod::Get, String::from_str("/api/admin/projects/down"))
}

/// What a reply that lists the projects that are down means.
pub open spec fn spec_down_projects_outcome(reply: Reply<DownProjectsResponse, String>) -> Result<
    Vec<DownProjectInfo>,
    Seq<char>,
> {
    match spec_simple_outcome(reply) {
        Ok(body) => Ok(body.down_projects),
        Err(e) => Err(e),
    }
}

/// The projects that are down, from the reply to `get_down_projects_admin_request`.
pub fn get_down_projects_admin(reply: Reply<DownProjectsResponse, String>) -> (r: Result<
    Vec<DownProjectInfo>,
    String,
>)
    ensures
        result_text(r) == spec_down_projects_outcome(reply),
{
    match simple_outcome(reply) {
        Ok(body) => Ok(body.down_projects),
        Err(e) => Err(e),
    }
}

} // verus!
