//! What each page decides before it renders.

pub mod admin;
pub mod auth_callback;
pub mod create_project;
pub mod home;
pub mod project_dashboard;
