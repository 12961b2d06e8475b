//! Request extractors.

pub mod auth_context;
