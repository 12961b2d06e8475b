//! Horizontal scaling configuration.
use vstd::prelude::*;
use vstd::string::*;

use crate::ids::{is_v4_uuid_text, lemma_uuid_text_shape, random_uuid_text};

verus! {

/// Strategy for maintaining WebSocket and voice session affinity
/// across multiple server instances.
#[derive(Debug, Clone, Copy, PartialEq, Eq, Structural)]
pub enum SessionAffinityStrategy {
    /// No session affinity: any instance can handle any request.
    NoAffinity,
    /// Consistent hashing based on session ID.
    ConsistentHashing,
    /// Route based on a custom header.
    HeaderBased,
}

impl Default for SessionAffinityStrategy {
    /// The default strategy: no affinity.
    fn default() -> (s: Self)
        ensures
            s == SessionAffinityStrategy::NoAffinity,
    {
        SessionAffinityStrategy::NoAffinity
    }
}

/// Configuration for horizontal scaling mode.
#[derive(Debug, Clone, PartialEq, Eq)]
pub struct ScalingConfig {
    /// When true, all persistent state must live in external stores.
    pub stateless_mode: bool,
    /// Strategy for WebSocket/voice session affinity.
    pub session_affinity: SessionAffinityStrategy,
    /// Unique instance identifier for distributed coordination.
    pub instance_id: String,
}

impl Default for ScalingConfig {
    /// Stateful mode without affinity, under a fresh random UUID.
    fn default() -> (c: Self)
        ensures
            !c.stateless_mode,
            c.session_affinity == SessionAffinityStrategy::NoAffinity,
            is_v4_uuid_text(c.instance_id@),
            c.instance_id@.len() == 36,
    {
        let id = random_uuid_text();
        proof {
            let b = choose|b: Seq<u8>| b.len() == 16 && id@ == #[trigger] crate::ids::uuid_text(crate::ids::v4_bits(b));
            lemma_uuid_text_shape(crate::ids::v4_bits(b));
        }
        ScalingConfig {
            stateless_mode: false,
            session_affinity: SessionAffinityStrategy::NoAffinity,
            instance_id: id,
        }
    }
}

} // verus!
