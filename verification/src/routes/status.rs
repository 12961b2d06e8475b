//! System status: the response and the federation peer summary.
use vstd::prelude::*;
use vstd::string::*;

verus! {

broadcast use vstd::seq::group_seq_axioms;

/// Response body for `GET /status`.
#[derive(Debug, Clone, PartialEq, Eq)]
pub struct StatusResponse {
    /// Configured provider.
    pub provider: String,
    /// Default autonomy tier.
    pub autonomy_tier: String,
    /// Number of agent profiles.
    pub agent_count: usize,
    /// Number of team definitions.
    pub team_count: usize,
    /// Number of stored sessions.
    pub session_count: usize,
    /// Number of audit entries.
    pub audit_entries: usize,
    /// Memory statistics, when a memory system runs.
    pub memory: Option<MemoryStatusInfo>,
    /// Federation state, when federation is configured.
    pub federation: Option<FederationStatusInfo>,
}

/// Memory statistics.
#[derive(Debug, Clone, Copy, PartialEq, Eq, Structural)]
pub struct MemoryStatusInfo {
    /// Stored memories.
    pub total_memories: usize,
    /// Stored triples.
    pub total_triples: usize,
    /// Size of the vector index.
    pub index_size: usize,
}

/// Federation state.
#[derive(Debug, Clone, PartialEq, Eq)]
pub struct FederationStatusInfo {
    /// This instance's ID.
    pub instance_id: String,
    /// This instance's public key.
    pub public_key: String,
    /// Number of known peers.
    pub peer_count: usize,
    /// Number of healthy peers.
    pub healthy_peers: usize,
    /// The peers.
    pub peers: Vec<PeerHealthInfo>,
}

/// A federation peer.
#[derive(Debug, Clone, PartialEq, Eq)]
pub struct PeerHealthInfo {
    /// Peer ID.
    pub id: String,
    /// Peer URL.
    pub url: String,
    /// Whether the last health check passed.
    pub healthy: bool,
    /// When the peer was last seen.
    pub last_seen: Option<String>,
    /// What the peer offers.
    pub capabilities: Vec<String>,
}

/// Number of healthy peers among `peers`.
pub open spec fn healthy_count(peers: Seq<PeerHealthInfo>) -> nat
    decreases peers.len(),
{
    if peers.len() == 0 {
        0
    } else {
        healthy_count(peers.drop_last()) + if peers.last().healthy {
            1nat
        } else {
            0nat
        }
    }
}

proof fn lemma_healthy_count_le(peers: Seq<PeerHealthInfo>)
    ensures
        healthy_count(peers) <= peers.len(),
    decreases peers.len(),
{
    if peers.len() > 0 {
        lemma_healthy_count_le(peers.drop_last());
    }
}

/// The federation part of the status from this instance's identity and
/// its peers.
pub fn federation_info(instance_id: String, public_key: String, peers: Vec<PeerHealthInfo>) -> (f:
    FederationStatusInfo)
    ensures
        f.instance_id == instance_id,
        f.public_key == public_key,
        f.peer_count == peers@.len(),
        f.healthy_peers == healthy_count(peers@),
        f.healthy_peers <= f.peer_count,
        f.peers == peers,
{
    let mut healthy: usize = 0;
    let mut i: usize = 0;
    while i < peers.len()
        invariant
            i <= peers@.len(),
            healthy == healthy_count(peers@.take(i as int)),
            healthy <= i,
        decreases peers@.len() - i,
    {
        assert(peers@.take(i as int + 1).drop_last() =~= peers@.take(i as int));
        if peers[i].healthy {
            healthy += 1;
        }
        i += 1;
    }
    assert(peers@.take(peers@.len() as int) =~= peers@);
    let n = peers.len();
    FederationStatusInfo { instance_id, public_key, peer_count: n, healthy_peers: healthy, peers }
}

} // verus!
