//! Security reviews of the agents the server hosts.

pub mod capability_audit;
