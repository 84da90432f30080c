//! The client's routes and which of them ask for a session.

use vstd::prelude::*;

verus! {

/// The pages that the client can show.
#[derive(Clone, Copy, Debug, PartialEq, Eq, Structural)]
pub enum AppRoute {
    Home,
    AuthCallback,
    CreateProject,
    ProjectDashboard { id: i32 },
    Admin,
    NotFound,
}

/// How a route is rendered: as it is, or behind the session guard.
#[derive(Clone, Copy, Debug, PartialEq, Eq, Structural)]
pub enum Rendering {
    Open(AppRoute),
    Guarded(AppRoute),
}

impl AppRoute {
    /// The routes that only an authenticated user may see.
    pub open spec fn spec_is_guarded(&self) -> bool {
        self is CreateProject || self is ProjectDashboard || self is Admin
    }

    /// Tells whether only an authenticated user may see this route.
    #[verifier::when_used_as_spec(spec_is_guarded)]
    pub fn is_guarded(&self) -> (r: bool)
        ensures
            r == self.spec_is_guarded(),
    {
        match self {
            AppRoute::CreateProject => true,
            AppRoute::ProjectDashboard { .. } => true,
            AppRoute::Admin => true,
            _ => false,
        }
    }
}

/// Chooses how `route` is rendered.
pub fn switch(route: AppRoute) -> (r: Rendering)
    ensures
        r == if route.spec_is_guarded() {
            Rendering::Guarded(route)
        } else {
            Rendering::Open(route)
        },
{
    if route.is_guarded() {
        Rendering::Guarded(route)
    } else {
        Rendering::Open(route)
    }
}

} // verus!
