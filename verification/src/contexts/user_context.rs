//! The session: who the current user is, and the only transitions that may change it.

use crate::models::user::User;
use crate::router::AppRoute;
use vstd::prelude::*;

verus! {

/// The session of this client: unresolved while `loading`, then either authenticated
/// (`user` present) or anonymous.
#[derive(Clone, Debug, PartialEq)]
pub struct UserState {
    pub user: Option<User>,
    pub loading: bool,
}

/// Why a login did not produce a session.
#[derive(Clone, Copy, Debug, PartialEq, Eq, Structural)]
pub enum AuthError {
    /// The callback carried no ticket.
    TicketMissing,
    /// The ticket was not accepted.
    LoginFailed,
}

/// What the page does once a login has settled.
#[derive(Clone, Copy, Debug, PartialEq, Eq, Structural)]
pub enum LoginEffect {
    Navigate(AppRoute),
    ShowError(AuthError),
}

/// What the page does once a logout has settled.
#[derive(Clone, Copy, Debug, PartialEq, Eq, Structural)]
pub enum LogoutEffect {
    Navigate(AppRoute),
    /// The backend did not confirm; the failure is reported and the session kept.
    ReportFailure,
}

impl AuthError {
    /// The key of the message that tells the user of this error.
    pub open spec fn spec_message_key(&self) -> Seq<char> {
        match self {
            AuthError::TicketMissing => "auth.ticket_missing"@,
            AuthError::LoginFailed => "auth.login_failed"@,
        }
    }

    /// The key of the message that tells the user of this error.
    pub fn message_key(&self) -> (key: &'static str)
        ensures
            key@ == self.spec_message_key(),
    {
        match self {
            AuthError::TicketMissing => "auth.ticket_missing",
            AuthError::LoginFailed => "auth.login_failed",
        }
    }
}

impl UserState {
    /// While the session is unresolved it holds no user.
    pub open spec fn wf(&self) -> bool {
        self.loading ==> self.user is None
    }

    /// The session as it is at startup: unresolved.
    pub fn new() -> (s: UserState)
        ensures
            s.user is None,
            s.loading,
            s.wf(),
    {
        UserState { user: None, loading: true }
    }

    /// The resolved session that holds `action`.
    pub open spec fn spec_reduce(self, action: Option<User>) -> UserState {
        UserState { user: action, loading: false }
    }

    /// Resolves the session to `action`: authenticated where it holds a user, anonymous
    /// where it holds none.
    pub fn reduce(&self, action: Option<User>) -> (next: UserState)
        ensures
            next == self.spec_reduce(action),
            next.wf(),
    {
        UserState { user: action, loading: false }
    }

    /// The session after the current-user request settled with `outcome`.
    pub open spec fn spec_current_user_settled<E>(self, outcome: Result<User, E>) -> UserState {
        match outcome {
            Ok(user) => self.spec_reduce(Some(user)),
            Err(_) => self.spec_reduce(None),
        }
    }

    /// Settles the startup request for the current user: any failure counts as no session
    /// and is not reported.
    pub fn current_user_settled<E>(self, outcome: Result<User, E>) -> (next: UserState)
        ensures
            next == self.spec_current_user_settled(outcome),
            !next.loading,
            next.wf(),
    {
        match outcome {
            Ok(user) => self.reduce(Some(user)),
            Err(_) => self.reduce(None),
        }
    }

    /// The session as a failed login leaves it: resolved, with the user it had.
    pub open spec fn spec_login_failed(self) -> UserState {
        UserState { user: self.user, loading: false }
    }

    /// The session and the effect after a ticket exchange settled with `outcome`.
    pub open spec fn spec_login_settled<E>(self, outcome: Result<User, E>) -> (
        UserState,
        LoginEffect,
    ) {
        match outcome {
            Ok(user) => (self.spec_reduce(Some(user)), LoginEffect::Navigate(AppRoute::Home)),
            Err(_) => (self.spec_login_failed(), LoginEffect::ShowError(AuthError::LoginFailed)),
        }
    }

    /// Settles a ticket exchange. On success the session holds the returned user and the
    /// client goes home. On failure the error is shown, the session is resolved and keeps
    /// the user it had; nothing is tried again.
    pub fn login_settled<E>(self, outcome: Result<User, E>) -> (r: (UserState, LoginEffect))
        ensures
            r == self.spec_login_settled(outcome),
            !r.0.loading,
            self.wf() ==> r.0.wf(),
    {
        match outcome {
            Ok(user) => (self.reduce(Some(user)), LoginEffect::Navigate(AppRoute::Home)),
            Err(_) => (
                UserState { user: self.user, loading: false },
                LoginEffect::ShowError(AuthError::LoginFailed),
            ),
        }
    }

    /// Refuses a login without an exchange, for the reason `error`: the error is shown and
    /// the session is resolved and keeps the user it had.
    pub fn login_refused(self, error: AuthError) -> (r: (UserState, LoginEffect))
        ensures
            r.0 == self.spec_login_failed(),
            r.1 == LoginEffect::ShowError(error),
            self.wf() ==> r.0.wf(),
    {
        (UserState { user: self.user, loading: false }, LoginEffect::ShowError(error))
    }

    /// The session and the effect after a logout settled with `outcome`.
    pub open spec fn spec_logout_settled<E>(self, outcome: Result<(), E>) -> (
        UserState,
        LogoutEffect,
    ) {
        match outcome {
            Ok(_) => (self.spec_reduce(None), LogoutEffect::Navigate(AppRoute::Home)),
            Err(_) => (self, LogoutEffect::ReportFailure),
        }
    }

    /// Settles a logout. On success the session becomes anonymous and the client goes
    /// home. On failure the session is left as it was: the backend may still hold it.
    pub fn logout_settled<E>(self, outcome: Result<(), E>) -> (r: (UserState, LogoutEffect))
        ensures
            r == self.spec_logout_settled(outcome),
            self.wf() ==> r.0.wf(),
    {
        match outcome {
            Ok(_) => (self.reduce(None), LogoutEffect::Navigate(AppRoute::Home)),
            Err(_) => (self, LogoutEffect::ReportFailure),
        }
    }
}

/// A resolved session never becomes unresolved again: no transition sets `loading`.
pub proof fn law_resolved_stays_resolved<E>(
    s: UserState,
    current: Result<User, E>,
    login: Result<User, E>,
    logout: Result<(), E>,
    action: Option<User>,
)
    ensures
        !s.spec_reduce(action).loading,
        !s.spec_current_user_settled(current).loading,
        !s.spec_login_settled(login).0.loading,
        !s.spec_login_failed().loading,
        !s.loading ==> !s.spec_logout_settled(logout).0.loading,
{
}

/// Two ticket exchanges in a row each leave the session resolved. Where both return the
/// same user the session holds that user after each; where the second is refused the
/// session keeps the user of the first.
pub proof fn law_login_twice<E>(s: UserState, first: Result<User, E>, second: Result<User, E>)
    ensures
        !s.spec_login_settled(first).0.loading,
        !s.spec_login_settled(first).0.spec_login_settled(second).0.loading,
        first is Ok && second == first ==> {
            &&& s.spec_login_settled(first).0.user == Some(first->Ok_0)
            &&& s.spec_login_settled(first).0.spec_login_settled(second).0
                == s.spec_login_settled(first).0
        },
        first is Ok && second is Err ==> {
            &&& s.spec_login_settled(first).0.spec_login_settled(second).0.user == Some(
                first->Ok_0,
            )
            &&& s.spec_login_settled(first).0.spec_login_settled(second).1
                == LoginEffect::ShowError(AuthError::LoginFailed)
        },
{
}

} // verus!
