//! Authentication and session management.

pub mod session_cache;

pub use session_cache::{SessionCache, SessionRecord};
