//! Projects, their details and the payloads that change them.

use crate::models::database::DatabaseDetails;
use vstd::prelude::*;

verus! {

/// Where a project's image comes from.
#[derive(Clone, Copy, Debug, PartialEq, Eq, Structural)]
pub enum ProjectSourceType {
    Direct,
    Github,
}

/// One environment variable of a project.
#[derive(Clone, Debug, PartialEq)]
pub struct EnvVar {
    pub key: String,
    pub value: String,
}

/// The keys of a list of environment variables, in order.
pub open spec fn env_keys(vars: Seq<EnvVar>) -> Seq<Seq<char>> {
    Seq::new(vars.len(), |i: int| vars[i].key@)
}

/// No key occurs twice in `vars`.
pub open spec fn distinct_keys(vars: Seq<EnvVar>) -> bool {
    forall|i: int, j: int|
        0 <= i < j < vars.len() ==> (#[trigger] vars[i]).key@ != (#[trigger] vars[j]).key@
}

/// A deployed project.
#[derive(Clone, Debug, PartialEq)]
pub struct Project {
    pub id: i32,
    pub name: String,
    pub owner: String,
    pub container_name: String,
    pub source: ProjectSourceType,
    pub source_url: String,
    pub source_branch: Option<String>,
    pub source_root_dir: Option<String>,
    pub deployed_image_tag: String,
    pub created_at: String,
    pub env_vars: Option<Vec<EnvVar>>,
    pub persistent_volume_path: Option<String>,
}

/// A project with its participants and its database.
#[derive(Clone, Debug, PartialEq)]
pub struct ProjectDetails {
    pub project: Project,
    pub participants: Vec<String>,
    pub database: Option<DatabaseDetails>,
}

/// The body of a reply that lists projects.
pub struct ProjectsResponse {
    pub projects: Vec<Project>,
}

/// The body of a reply that describes one project.
pub struct ProjectDetailsResponse {
    pub project: ProjectDetails,
}

/// What is sent to deploy a project.
pub struct DeployPayload {
    pub project_name: String,
    pub image_url: Option<String>,
    pub github_repo_url: Option<String>,
    pub github_branch: Option<String>,
    pub github_root_dir: Option<String>,
    pub participants: Vec<String>,
    pub env_vars: Option<Vec<EnvVar>>,
    pub persistent_volume_path: Option<String>,
    pub create_database: Option<bool>,
}

impl Default for DeployPayload {
    fn default() -> (r: Self)
        ensures
            r.project_name@.len() == 0,
            r.image_url is None,
            r.github_repo_url is None,
            r.github_branch is None,
            r.github_root_dir is None,
            r.participants@.len() == 0,
            r.env_vars is None,
            r.persistent_volume_path is None,
            r.create_database is None,
    {
        DeployPayload {
            project_name: String::new(),
            image_url: None,
            github_repo_url: None,
            github_branch: None,
            github_root_dir: None,
            participants: Vec::new(),
            env_vars: None,
            persistent_volume_path: None,
            create_database: None,
        }
    }
}

/// What is sent to replace a project's environment variables.
pub struct UpdateEnvPayload {
    pub env_vars: Vec<EnvVar>,
}

/// A project that is down, with the time since it stopped.
#[derive(Clone, Debug, PartialEq)]
pub struct DownProjectInfo {
    pub project: Project,
    pub stopped_at: String,
    pub downtime_seconds: i64,
}

/// The body of a reply that lists the projects that are down.
pub struct DownProjectsResponse {
    pub down_projects: Vec<DownProjectInfo>,
}

} // verus!
