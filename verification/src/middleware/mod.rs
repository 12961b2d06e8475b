//! Decisions taken by the server's middleware layers.

pub mod auth;
pub mod rate_limit;
pub mod security;
pub mod tenant_auth;
pub mod trace_context;
