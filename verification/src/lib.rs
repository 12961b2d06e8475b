//! Verified core of the aivyx HTTP gateway.

pub mod auth;
pub mod backup;
pub mod channels;
pub mod clock;
pub mod engine;
pub mod extractors;
pub mod error;
pub mod ids;
pub mod middleware;
pub mod rate_window;
pub mod routes;
pub mod scaling;
pub mod scheduler;
pub mod security;
pub mod sso;
pub mod startup;
pub mod std_specs;
pub mod task_recovery;
pub mod tenant;
pub mod text;
pub mod validation;
