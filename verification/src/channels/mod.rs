//! Inbound communication channels: the platform-independent decisions.

pub mod manager;
pub mod session;
pub mod telegram;
