//! OIDC single sign-on: token checks and group-to-role mapping.

pub mod oidc;
pub mod role_mapper;
