//! Request/response types and pure helpers of the HTTP routes.

pub mod a2a;
pub mod admin;
pub mod agents;
pub mod audit;
pub mod channels;
pub mod chat;
pub mod config;
pub mod digest;
pub mod federation;
pub mod health;
pub mod memory;
pub mod metrics;
pub mod plugins;
pub mod projects;
pub mod schedules;
pub mod secrets;
pub mod sessions;
pub mod skills;
pub mod status;
pub mod tasks;
pub mod teams;
pub mod templates;
pub mod tenants;
pub mod tools;
pub mod usage;
pub mod webhooks;
pub mod workflows;
pub mod ws;
pub mod ws_voice;
