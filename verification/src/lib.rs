//! The logic of the Hangar web client, a single-page application for a platform that hosts
//! containers.
//!
//! The client has two states worth reasoning about. The session says who the user is: it
//! starts unresolved, is settled by the startup request or by a ticket exchange, and only
//! its few transitions change it (`contexts::user_context`). The view of one project keeps
//! its status and its metrics current by polling, and lets the user control the project one
//! action at a time (`pages::project_dashboard`).
//!
//! Nothing here touches the browser. A request is a value that the application sends
//! (`services`); a timer, a prompt or a navigation is an effect that a transition hands back
//! for the application to carry out.

pub mod app;
pub mod components;
pub mod contexts;
pub mod localization;
pub mod models;
pub mod pages;
pub mod router;
pub mod services;
pub mod text;
