//! State shared by the whole client.

pub mod user_context;
