use hangar::components::protected_route::{protected_route, Guard};
use hangar::contexts::user_context::{AuthError, LoginEffect, LogoutEffect, UserState};
use hangar::models::user::User;
use hangar::pages::auth_callback::{auth_callback, extract_ticket, LoginStep};
use hangar::router::{switch, AppRoute, Rendering};
use hangar::services::auth_service::{validate_ticket, validate_ticket_request, AuthResponse};
use hangar::services::transport::Reply;

fn user(login: &str) -> User {
    User {
        login: login.to_string(),
        name: "Jane Doe".to_string(),
        email: "jane@example.org".to_string(),
        is_admin: false,
    }
}

fn anonymous() -> UserState {
    UserState { user: None, loading: false }
}

fn signed_in(login: &str) -> UserState {
    UserState { user: Some(user(login)), loading: false }
}

#[test]
fn session_starts_unresolved() {
    let s = UserState::new();
    assert!(s.loading);
    assert!(s.user.is_none());
}

#[test]
fn reduce_resolves_the_session() {
    let s = UserState::new();
    assert_eq!(s.reduce(Some(user("jdoe"))), signed_in("jdoe"));
    assert_eq!(s.reduce(None), anonymous());
    assert_eq!(signed_in("a").reduce(Some(user("b"))), signed_in("b"));
}

#[test]
fn startup_failure_counts_as_no_session() {
    let failed: Result<User, String> = Err("Not authenticated or session expired".to_string());
    assert_eq!(UserState::new().current_user_settled(failed), anonymous());
    let found: Result<User, String> = Ok(user("jdoe"));
    assert_eq!(UserState::new().current_user_settled(found), signed_in("jdoe"));
}

#[test]
fn ticket_is_found_in_the_query() {
    assert_eq!(extract_ticket("?ticket=abc123"), Some("abc123".to_string()));
    assert_eq!(extract_ticket("ticket=abc123"), Some("abc123".to_string()));
    assert_eq!(extract_ticket("??ticket=abc123"), Some("abc123".to_string()));
    assert_eq!(extract_ticket("?a=1&ticket=ST-42&b=2"), Some("ST-42".to_string()));
    assert_eq!(extract_ticket("?ticket=first&ticket=second"), Some("first".to_string()));
    assert_eq!(extract_ticket("?ticket="), Some(String::new()));
    assert_eq!(extract_ticket("?ticket=a=b"), Some("a=b".to_string()));
}

#[test]
fn ticket_is_missing_without_the_parameter() {
    assert_eq!(extract_ticket(""), None);
    assert_eq!(extract_ticket("?"), None);
    assert_eq!(extract_ticket("?ticket"), None);
    assert_eq!(extract_ticket("?xticket=abc"), None);
    assert_eq!(extract_ticket("?service=x&Ticket=abc"), None);
    assert_eq!(extract_ticket("?a=ticket=abc"), None);
}

#[test]
fn ticket_extraction_agrees_with_the_iterator_chain() {
    for query in ["", "?", "?ticket=abc", "?x&ticket=&y", "a&b", "??&ticket=é&ticket=z", "ticket=?"] {
        let expected = query
            .trim_start_matches('?')
            .split('&')
            .find_map(|p| p.strip_prefix("ticket="))
            .map(|t| t.to_string());
        assert_eq!(extract_ticket(query), expected, "{query:?}");
    }
}

#[test]
fn callback_with_ticket_exchanges_it() {
    assert_eq!(auth_callback("?ticket=abc123"), LoginStep::Exchange("abc123".to_string()));
}

#[test]
fn callback_without_ticket_reports_it_missing() {
    assert_eq!(auth_callback(""), LoginStep::Refuse(AuthError::TicketMissing));
    assert_eq!(auth_callback("?service=x"), LoginStep::Refuse(AuthError::TicketMissing));
    assert_eq!(AuthError::TicketMissing.message_key(), "auth.ticket_missing");
}

#[test]
fn callback_with_empty_ticket_is_a_failed_login() {
    assert_eq!(auth_callback("?ticket="), LoginStep::Refuse(AuthError::LoginFailed));
    assert_eq!(AuthError::LoginFailed.message_key(), "auth.login_failed");
}

#[test]
fn login_with_a_valid_ticket_signs_in_and_goes_home() {
    let step = auth_callback("?ticket=abc123");
    let ticket = match step {
        LoginStep::Exchange(t) => t,
        LoginStep::Refuse(e) => panic!("refused: {e:?}"),
    };
    assert_eq!(validate_ticket_request(&ticket).url, "/api/auth/callback?ticket=abc123");
    let reply: Reply<AuthResponse, String> = Reply::Accepted(Ok(AuthResponse { user: user("jdoe") }));
    let (session, effect) = UserState::new().login_settled(validate_ticket(reply));
    assert_eq!(session, signed_in("jdoe"));
    assert_eq!(effect, LoginEffect::Navigate(AppRoute::Home));
}

#[test]
fn missing_ticket_leaves_the_session_anonymous() {
    let step = auth_callback("?other=1");
    let error = match step {
        LoginStep::Refuse(e) => e,
        LoginStep::Exchange(t) => panic!("exchanged {t}"),
    };
    let (session, effect) = anonymous().login_refused(error);
    assert_eq!(session, anonymous());
    assert_eq!(effect, LoginEffect::ShowError(AuthError::TicketMissing));
    let (session, _) = UserState::new().login_refused(error);
    assert_eq!(session, anonymous());
}

#[test]
fn failed_login_shows_the_error_and_resolves_the_session() {
    let refused: Result<User, String> = Err("API Error: status 401".to_string());
    let (session, effect) = UserState::new().login_settled(refused.clone());
    assert_eq!(session, anonymous());
    assert_eq!(effect, LoginEffect::ShowError(AuthError::LoginFailed));
    let (session, effect) = signed_in("jdoe").login_settled(refused);
    assert_eq!(session, signed_in("jdoe"));
    assert_eq!(effect, LoginEffect::ShowError(AuthError::LoginFailed));
}

#[test]
fn login_twice_with_the_same_ticket_is_idempotent() {
    let outcome: Result<User, String> = Ok(user("jdoe"));
    let (first, _) = UserState::new().login_settled(outcome.clone());
    let (second, effect) = first.clone().login_settled(outcome);
    assert_eq!(first, signed_in("jdoe"));
    assert_eq!(second, first);
    assert!(!second.loading);
    assert_eq!(effect, LoginEffect::Navigate(AppRoute::Home));
}

#[test]
fn login_twice_with_a_reused_ticket_refused_keeps_the_session_resolved() {
    let (first, _) = UserState::new().login_settled::<String>(Ok(user("jdoe")));
    let (second, effect) = first.login_settled::<String>(Err("API Error: status 401".to_string()));
    assert!(!second.loading);
    assert_eq!(second, signed_in("jdoe"));
    assert_eq!(effect, LoginEffect::ShowError(AuthError::LoginFailed));
}

#[test]
fn logout_success_clears_the_session_and_goes_home() {
    let (session, effect) = signed_in("jdoe").logout_settled::<String>(Ok(()));
    assert_eq!(session, anonymous());
    assert_eq!(effect, LogoutEffect::Navigate(AppRoute::Home));
}

#[test]
fn logout_failure_keeps_the_session() {
    let (session, effect) = signed_in("jdoe").logout_settled(Err("Network error: offline".to_string()));
    assert_eq!(session, signed_in("jdoe"));
    assert_eq!(effect, LogoutEffect::ReportFailure);
}

#[test]
fn guard_waits_while_the_session_is_unresolved() {
    assert_eq!(protected_route(&UserState::new()), Guard::Wait);
    assert_eq!(protected_route(&UserState { user: Some(user("x")), loading: true }), Guard::Wait);
}

#[test]
fn guard_renders_for_a_user_and_redirects_a_visitor() {
    assert_eq!(protected_route(&signed_in("jdoe")), Guard::Render);
    assert_eq!(protected_route(&anonymous()), Guard::Redirect(AppRoute::Home));
}

#[test]
fn routes_that_ask_for_a_session_are_guarded() {
    assert_eq!(switch(AppRoute::Home), Rendering::Open(AppRoute::Home));
    assert_eq!(switch(AppRoute::AuthCallback), Rendering::Open(AppRoute::AuthCallback));
    assert_eq!(switch(AppRoute::NotFound), Rendering::Open(AppRoute::NotFound));
    assert_eq!(switch(AppRoute::CreateProject), Rendering::Guarded(AppRoute::CreateProject));
    assert_eq!(
        switch(AppRoute::ProjectDashboard { id: 7 }),
        Rendering::Guarded(AppRoute::ProjectDashboard { id: 7 })
    );
    assert_eq!(switch(AppRoute::Admin), Rendering::Guarded(AppRoute::Admin));
    assert!(AppRoute::Admin.is_guarded());
    assert!(!AppRoute::Home.is_guarded());
}
