//! The authentication endpoints: ticket exchange, current user and logout.

use crate::models::user::User;
use crate::services::transport::{prefixed, result_text, ApiRequest, HttpMethod, Reply};
use crate::text::{decimal, i64_to_decimal};
use vstd::prelude::*;

verus! {

/// The body of a reply to a ticket exchange.
pub struct AuthResponse {
    pub user: User,
}

/// The body of a reply that names the current user.
pub struct MeResponse {
    pub user: User,
}

/// The text that reports a refusal with status `status`.
pub open spec fn status_error(status: u16) -> Seq<char> {
    "API Error: status "@ + decimal(status as int)
}

fn make_status_error(status: u16) -> (r: String)
    ensures
        r@ == status_error(status),
{
    let digits = i64_to_decimal(status as i64);
    prefixed("API Error: status ", &digits)
}

/// The request that exchanges `ticket` for an identity.
pub fn validate_ticket_request(ticket: &str) -> (r: ApiRequest)
    requires
        ticket@.len() > 0,
    ensures
        r.method == HttpMethod::Get,
        r.url@ == "/api/auth/callback?ticket="@ + ticket@,
{
    let mut url = String::from_str("/api/auth/callback?ticket=");
    url.append(ticket);
    ApiRequest { method: HttpMethod::Get, url }
}

/// What a reply to a ticket exchange means. A refusal's body is not read.
pub open spec fn spec_validate_ticket<E>(reply: Reply<AuthResponse, E>) -> Result<
    User,
    Seq<char>,
> {
    match reply {
        Reply::Unreachable(e) => Err("Network error: "@ + e@),
        Reply::Refused { refusal, error } => Err(status_error(refusal.spec_status())),
        Reply::Accepted(Ok(body)) => Ok(body.user),
        Reply::Accepted(Err(e)) => Err("Deserialization error: "@ + e@),
    }
}

/// The identity that the ticket stands for, from the reply to `validate_ticket_request`.
pub fn validate_ticket<E>(reply: Reply<AuthResponse, E>) -> (r: Result<User, String>)
    ensures
        result_text(r) == spec_validate_ticket(reply),
{
    match reply {
        Reply::Unreachable(e) => Err(prefixed("Network error: ", &e)),
        Reply::Refused { refusal, error } => Err(make_status_error(refusal.status())),
        Reply::Accepted(Ok(body)) => Ok(body.user),
        Reply::Accepted(Err(e)) => Err(prefixed("Deserialization error: ", &e)),
    }
}

/// The request that asks who the current user is.
pub fn get_current_user_request() -> (r: ApiRequest)
    ensures
        r.method == HttpMethod::Get,
        r.url@ == "/api/auth/me"@,
{
    ApiRequest { method: HttpMethod::Get, url: String::from_str("/api/auth/me") }
}

/// What a reply that names the current user means: the user of a response within
/// 200..=299 whose body holds one. A refusal, whatever its body, and a body that cannot be
/// decoded count as no session.
pub open spec fn spec_current_user<E>(reply: Reply<MeResponse, E>) -> Result<User, Seq<char>> {
    match reply {
        Reply::Unreachable(e) => Err("Network error: "@ + e@),
        Reply::Refused { refusal, error } => Err("Not authenticated or session expired"@),
        Reply::Accepted(Ok(body)) => Ok(body.user),
        Reply::Accepted(Err(e)) => Err("Not authenticated or session expired"@),
    }
}

/// The current user, from the reply to `get_current_user_request`. There is a user only
/// where the response was a success and its body held one.
pub fn get_current_user<E>(reply: Reply<MeResponse, E>) -> (r: Result<User, String>)
    ensures
        result_text(r) == spec_current_user(reply),
        r is Ok <==> reply matches Reply::Accepted(Ok(_)),
{
    match reply {
        Reply::Unreachable(e) => Err(prefixed("Network error: ", &e)),
        Reply::Refused { refusal, error } => Err(
            String::from_str("Not authenticated or session expired"),
        ),
        Reply::Accepted(Ok(body)) => Ok(body.user),
        Reply::Accepted(Err(e)) => Err(String::from_str("Not authenticated or session expired")),
    }
}

/// The request that ends the session.
pub fn logout_request() -> (r: ApiRequest)
    ensures
        r.method == HttpMethod::Get,
        r.url@ == "/api/auth/logout"@,
{
    ApiRequest { method: HttpMethod::Get, url: String::from_str("/api/auth/logout") }
}

/// What a reply to a logout means: success within 200..=299, whatever the body.
pub open spec fn spec_logout<T, E>(reply: Reply<T, E>) -> Result<(), Seq<char>> {
    match reply {
        Reply::Unreachable(e) => Err("Network error: "@ + e@),
        Reply::Refused { refusal, error } => Err(status_error(refusal.spec_status())),
        Reply::Accepted(body) => Ok(()),
    }
}

/// Whether the session was ended, from the reply to `logout_request`.
pub fn logout<T, E>(reply: Reply<T, E>) -> (r: Result<(), String>)
    ensures
        result_text(r) == spec_logout(reply),
{
    match reply {
        Reply::Unreachable(e) => Err(prefixed("Network error: ", &e)),
        Reply::Refused { refusal, error } => Err(make_status_error(refusal.status())),
        Reply::Accepted(body) => Ok(()),
    }
}

} // verus!
