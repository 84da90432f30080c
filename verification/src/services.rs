//! The backend's REST interface: which request each operation sends, and what each reply means.

pub mod auth_service;
pub mod database_service;
pub mod project_service;
pub mod transport;
