//! The guard in front of the pages that ask for a session.

use crate::contexts::user_context::UserState;
use crate::router::AppRoute;
use vstd::prelude::*;

verus! {

/// What the guard does.
#[derive(Clone, Copy, Debug, PartialEq, Eq, Structural)]
pub enum Guard {
    /// The session is unresolved: show a placeholder and go nowhere.
    Wait,
    /// The session holds a user: show the page.
    Render,
    /// The session is anonymous: go to this route.
    Redirect(AppRoute),
}

/// What the guard does for the session `user_context`.
pub open spec fn spec_protected_route(user_context: UserState) -> Guard {
    if user_context.loading {
        Guard::Wait
    } else if user_context.user is Some {
        Guard::Render
    } else {
        Guard::Redirect(AppRoute::Home)
    }
}

/// Decides what the guard does. Nothing is decided while the session is unresolved, so
/// that a user is not sent away before the startup request has settled.
pub fn protected_route(user_context: &UserState) -> (guard: Guard)
    ensures
        guard == spec_protected_route(*user_context),
{
    if user_context.loading {
        Guard::Wait
    } else if user_context.user.is_some() {
        Guard::Render
    } else {
        Guard::Redirect(AppRoute::Home)
    }
}

/// The guard sends nobody away while the session is unresolved, and lets a page be seen
/// only by a session that holds a user.
pub proof fn law_guard(user_context: UserState)
    ensures
        user_context.loading ==> spec_protected_route(user_context) == Guard::Wait,
        spec_protected_route(user_context) == Guard::Render ==> user_context.user is Some
            && !user_context.loading,
{
}

} // verus!
