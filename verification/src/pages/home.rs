//! The home page: the login link for a visitor, the projects for a user.

use crate::contexts::user_context::UserState;
use crate::models::database::DatabaseDetails;
use crate::models::project::{Project, ProjectSourceType};
use crate::models::user::User;
use crate::text::{replace_all, replaced};
use vstd::prelude::*;

verus! {

/// Where the single sign-on service takes logins.
pub const CAS_LOGIN_URL: &'static str = "https://portail-ovh.isep.fr/cas/login";

/// The address to which a visitor is sent to log in, for a client served from `origin`:
/// the sign-on service is told to send the user back to the client's callback route.
pub open spec fn spec_login_url(origin: Seq<char>) -> Seq<char> {
    "https://portail-ovh.isep.fr/cas/login"@ + "?service="@ + origin + "/auth/callback"@
}

/// Builds the address to which a visitor is sent to log in.
pub fn login_url(origin: &str) -> (url: String)
    ensures
        url@ == spec_login_url(origin@),
{
    let mut url = String::from_str(CAS_LOGIN_URL);
    url.append("?service=");
    url.append(origin);
    url.append("/auth/callback");
    url
}

/// What the home page shows.
#[derive(Clone, Copy, Debug, PartialEq, Eq, Structural)]
pub enum HomeView {
    /// The user's projects.
    Dashboard,
    /// The invitation to log in.
    Login,
}

/// Decides what the home page shows: the projects to a user, the login link to anyone else.
pub fn home(user_context: &UserState) -> (view: HomeView)
    ensures
        view == if user_context.user is Some {
            HomeView::Dashboard
        } else {
            HomeView::Login
        },
{
    if user_context.user.is_some() {
        HomeView::Dashboard
    } else {
        HomeView::Login
    }
}

/// The greeting above the projects: `template` with `{name}` replaced by the user's name.
pub fn welcome_message(template: &str, user: &User) -> (message: String)
    ensures
        message@ == replaced(template@, "{name}"@, user.name@),
{
    replace_all(template, "{name}", user.name.as_str())
}

/// The projects to list once the request for them has settled: none where it failed.
pub fn projects_or_none<E>(outcome: Result<Vec<Project>, E>) -> (projects: Vec<Project>)
    ensures
        projects@ == match outcome {
            Ok(list) => list@,
            Err(_) => Seq::<Project>::empty(),
        },
{
    match outcome {
        Ok(list) => list,
        Err(_) => Vec::new(),
    }
}

/// The database to offer beside the projects: the caller's own, where no project uses it.
pub fn unlinked_database<E>(outcome: Result<DatabaseDetails, E>) -> (db: Option<DatabaseDetails>)
    ensures
        db == match outcome {
            Ok(d) => if d.project_id is None {
                Some(d)
            } else {
                None
            },
            Err(_) => None,
        },
{
    match outcome {
        Ok(d) => {
            if d.project_id.is_none() {
                Some(d)
            } else {
                None
            }
        },
        Err(_) => None,
    }
}

/// What a section of projects shows.
#[derive(Clone, Copy, Debug, PartialEq, Eq, Structural)]
pub enum GridView {
    /// The list has not come in yet.
    Loading,
    /// There is nothing to list: the section's own message is shown.
    Empty,
    /// One card for each project, then one for the database where there is one.
    Cards,
}

/// Decides what a section of projects shows.
pub fn project_grid(projects: &Option<Vec<Project>>, unlinked_db: &Option<DatabaseDetails>) -> (view:
    GridView)
    ensures
        view == match *projects {
            None => GridView::Loading,
            Some(list) => if list@.len() == 0 && *unlinked_db is None {
                GridView::Empty
            } else {
                GridView::Cards
            },
        },
{
    match projects {
        None => GridView::Loading,
        Some(list) => {
            if list.len() == 0 && unlinked_db.is_none() {
                GridView::Empty
            } else {
                GridView::Cards
            }
        },
    }
}

/// The mark of a project's source on its card.
#[derive(Clone, Copy, Debug, PartialEq, Eq)]
pub struct SourceMark {
    pub icon: &'static str,
    pub title: &'static str,
}

/// The mark for the source of `project`.
pub fn project_card(project: &Project) -> (mark: SourceMark)
    ensures
        project.source == ProjectSourceType::Github ==> mark.icon@
            == "/assets/github-mark-white.svg"@ && mark.title@ == "GitHub"@,
        project.source == ProjectSourceType::Direct ==> mark.icon@
            == "/assets/docker-logo-white.svg"@ && mark.title@ == "Direct Image"@,
{
    match project.source {
        ProjectSourceType::Github => SourceMark {
            icon: "/assets/github-mark-white.svg",
            title: "GitHub",
        },
        ProjectSourceType::Direct => SourceMark {
            icon: "/assets/docker-logo-white.svg",
            title: "Direct Image",
        },
    }
}

} // verus!
