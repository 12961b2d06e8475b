//! Capability audit reports for agent profiles.
//!
//! Inventories each agent's capabilities and flags overly permissive
//! grants: unrestricted shell, filesystem rooted at `/`, network without
//! host restriction, custom scopes without a `namespace:`, and agents with
//! `Trust` or `Free` autonomy holding three or more capabilities.
use vstd::prelude::*;
use vstd::string::*;

use crate::backup::{ends_with, ends_with_exec};
use crate::engine::{tier_name, AutonomyTier};
use crate::text::{decimal, find_char, join_spec, join_strings, texts, to_chars, u64_to_decimal};

verus! {

broadcast use vstd::seq::group_seq_axioms;

/// What a capability grants access to.
#[derive(Debug, Clone)]
pub enum CapabilityScope {
    /// Files under `root`.
    Filesystem { root: String },
    /// Network access to `hosts` on `ports` (empty lists are unrestricted).
    Network { hosts: Vec<String>, ports: Vec<u16> },
    /// Shell commands (an empty list allows any).
    Shell { allowed_commands: Vec<String> },
    /// Email to `allowed_recipients` (an empty list allows any).
    Email { allowed_recipients: Vec<String> },
    /// The calendar.
    Calendar,
    /// A custom scope, normally `namespace:name`.
    Custom(String),
}

/// A granted capability: a scope and the action pattern it covers.
#[derive(Debug, Clone)]
pub struct Capability {
    /// The scope.
    pub scope: CapabilityScope,
    /// Action glob pattern.
    pub pattern: String,
}

/// What the audit reads of an agent profile.
#[derive(Debug, Clone)]
pub struct AuditedProfile {
    /// Agent profile name.
    pub name: String,
    /// Agent role description.
    pub role: String,
    /// Autonomy tier, when the profile sets one.
    pub autonomy_tier: Option<AutonomyTier>,
    /// Granted capabilities, in profile order.
    pub capabilities: Vec<Capability>,
    /// Tools available to the agent.
    pub tool_ids: Vec<String>,
}

/// A single capability expressed as display strings.
#[derive(Debug, Clone, PartialEq, Eq)]
pub struct CapabilitySummary {
    /// Human-readable scope description.
    pub scope: String,
    /// Action glob pattern.
    pub pattern: String,
}

/// Capability summary for a single agent.
#[derive(Debug, Clone, PartialEq, Eq)]
pub struct AgentCapabilityEntry {
    /// Agent profile name.
    pub agent_name: String,
    /// Agent role description.
    pub role: String,
    /// Display string for the agent's autonomy tier.
    pub autonomy_tier: String,
    /// Capabilities granted to this agent.
    pub capabilities: Vec<CapabilitySummary>,
    /// Number of tools available to this agent.
    pub tool_count: usize,
}

/// A security warning found during capability audit.
#[derive(Debug, Clone, PartialEq, Eq)]
pub enum CapabilityWarning {
    /// Agent has shell access with no command restrictions.
    WildcardShell { agent: String },
    /// Agent has filesystem access rooted at `/`.
    WildcardFilesystem { agent: String, root: String },
    /// Agent has network access with no host restrictions.
    WildcardNetwork { agent: String },
    /// Agent has a custom scope that is not namespaced (no `:` separator).
    UnrestrictedCustom { agent: String, scope: String },
    /// Agent with Trust or Free autonomy has 3 or more capabilities.
    HighAutonomyWithBroadScope { agent: String, tier: String, scope_count: usize },
}

/// A warning, with its texts as character sequences.
pub enum WarningView {
    /// See [`CapabilityWarning::WildcardShell`].
    WildcardShell { agent: Seq<char> },
    /// See [`CapabilityWarning::WildcardFilesystem`].
    WildcardFilesystem { agent: Seq<char>, root: Seq<char> },
    /// See [`CapabilityWarning::WildcardNetwork`].
    WildcardNetwork { agent: Seq<char> },
    /// See [`CapabilityWarning::UnrestrictedCustom`].
    UnrestrictedCustom { agent: Seq<char>, scope: Seq<char> },
    /// See [`CapabilityWarning::HighAutonomyWithBroadScope`].
    HighAutonomyWithBroadScope { agent: Seq<char>, tier: Seq<char>, scope_count: nat },
}

impl View for CapabilityWarning {
    type V = WarningView;

    open spec fn view(&self) -> WarningView {
        match self {
            CapabilityWarning::WildcardShell { agent } => WarningView::WildcardShell { agent: agent@ },
            CapabilityWarning::WildcardFilesystem { agent, root } => WarningView::WildcardFilesystem {
                agent: agent@,
                root: root@,
            },
            CapabilityWarning::WildcardNetwork { agent } => WarningView::WildcardNetwork { agent: agent@ },
            CapabilityWarning::UnrestrictedCustom { agent, scope } => WarningView::UnrestrictedCustom {
                agent: agent@,
                scope: scope@,
            },
            CapabilityWarning::HighAutonomyWithBroadScope { agent, tier, scope_count } =>
                WarningView::HighAutonomyWithBroadScope {
                agent: agent@,
                tier: tier@,
                scope_count: *scope_count as nat,
            },
        }
    }
}

/// The decimal text of each port.
pub open spec fn port_texts(v: Seq<u16>) -> Seq<Seq<char>> {
    v.map_values(|p: u16| decimal(p as nat))
}

/// The decimal texts of the ports.
fn port_strings(ports: &Vec<u16>) -> (r: Vec<String>)
    ensures
        texts(r@) == port_texts(ports@),
{
    let mut r: Vec<String> = Vec::new();
    let mut i: usize = 0;
    while i < ports.len()
        invariant
            i <= ports@.len(),
            texts(r@) == port_texts(ports@.take(i as int)),
        decreases ports@.len() - i,
    {
        let d = u64_to_decimal(ports[i] as u64);
        assert(d@ == decimal(ports@[i as int] as nat));
        let ghost before = r@;
        r.push(d);
        assert(r@ == before.push(d));
        assert(texts(r@) =~= texts(before).push(d@));
        assert(port_texts(ports@.take(i as int + 1)) =~= port_texts(ports@.take(i as int)).push(
            decimal(ports@[i as int] as nat),
        ));
        i += 1;
    }
    assert(ports@.take(ports@.len() as int) =~= ports@);
    r
}

/// The display text of a scope.
pub open spec fn scope_text(s: CapabilityScope) -> Seq<char> {
    match s {
        CapabilityScope::Filesystem { root } => "Filesystem("@ + root@ + ")"@,
        CapabilityScope::Network { hosts, ports } => if hosts@.len() == 0 && ports@.len() == 0 {
            "Network(*)"@
        } else if ports@.len() == 0 {
            "Network(hosts=["@ + join_spec(texts(hosts@), ", "@) + "])"@
        } else if hosts@.len() == 0 {
            "Network(ports=["@ + join_spec(port_texts(ports@), ", "@) + "])"@
        } else {
            "Network(hosts=["@ + join_spec(texts(hosts@), ", "@) + "], ports=["@ + join_spec(
                port_texts(ports@),
                ", "@,
            ) + "])"@
        },
        CapabilityScope::Shell { allowed_commands } => if allowed_commands@.len() == 0 {
            "Shell(*)"@
        } else {
            "Shell(["@ + join_spec(texts(allowed_commands@), ", "@) + "])"@
        },
        CapabilityScope::Email { allowed_recipients } => if allowed_recipients@.len() == 0 {
            "Email(*)"@
        } else {
            "Email(["@ + join_spec(texts(allowed_recipients@), ", "@) + "])"@
        },
        CapabilityScope::Calendar => "Calendar"@,
        CapabilityScope::Custom(s) => "Custom("@ + s@ + ")"@,
    }
}

/// Format a `CapabilityScope` as a human-readable display string.
pub fn format_scope(scope: &CapabilityScope) -> (r: String)
    ensures
        r@ == scope_text(*scope),
{
    match scope {
        CapabilityScope::Filesystem { root } => {
            let mut r = "Filesystem(".to_owned();
            r.append(root.as_str());
            r.append(")");
            r
        },
        CapabilityScope::Network { hosts, ports } => {
            if hosts.len() == 0 && ports.len() == 0 {
                "Network(*)".to_owned()
            } else if ports.len() == 0 {
                let mut r = "Network(hosts=[".to_owned();
                r.append(join_strings(hosts, ", ").as_str());
                r.append("])");
                r
            } else if hosts.len() == 0 {
                let mut r = "Network(ports=[".to_owned();
                r.append(join_strings(&port_strings(ports), ", ").as_str());
                r.append("])");
                r
            } else {
                let mut r = "Network(hosts=[".to_owned();
                r.append(join_strings(hosts, ", ").as_str());
                r.append("], ports=[");
                r.append(join_strings(&port_strings(ports), ", ").as_str());
                r.append("])");
                r
            }
        },
        CapabilityScope::Shell { allowed_commands } => {
            if allowed_commands.len() == 0 {
                "Shell(*)".to_owned()
            } else {
                let mut r = "Shell([".to_owned();
                r.append(join_strings(allowed_commands, ", ").as_str());
                r.append("])");
                r
            }
        },
        CapabilityScope::Email { allowed_recipients } => {
            if allowed_recipients.len() == 0 {
                "Email(*)".to_owned()
            } else {
                let mut r = "Email([".to_owned();
                r.append(join_strings(allowed_recipients, ", ").as_str());
                r.append("])");
                r
            }
        },
        CapabilityScope::Calendar => "Calendar".to_owned(),
        CapabilityScope::Custom(s) => {
            let mut r = "Custom(".to_owned();
            r.append(s.as_str());
            r.append(")");
            r
        },
    }
}

/// Display text of an optional tier.
pub open spec fn tier_text(tier: Option<AutonomyTier>) -> Seq<char> {
    match tier {
        Some(t) => tier_name(t),
        None => "Default"@,
    }
}

/// Format an optional `AutonomyTier` as a display string.
pub fn format_tier(tier: Option<AutonomyTier>) -> (r: String)
    ensures
        r@ == tier_text(tier),
{
    match tier {
        Some(t) => t.name(),
        None => "Default".to_owned(),
    }
}

/// The warning that a single scope of `agent` raises, if any.
pub open spec fn scope_warnings(agent: Seq<char>, s: CapabilityScope) -> Seq<WarningView> {
    match s {
        CapabilityScope::Shell { allowed_commands } => if allowed_commands@.len() == 0 {
            seq![WarningView::WildcardShell { agent }]
        } else {
            seq![]
        },
        CapabilityScope::Filesystem { root } => if root@ == "/"@ {
            seq![WarningView::WildcardFilesystem { agent, root: root@ }]
        } else {
            seq![]
        },
        CapabilityScope::Network { hosts, .. } => if hosts@.len() == 0 {
            seq![WarningView::WildcardNetwork { agent }]
        } else {
            seq![]
        },
        CapabilityScope::Custom(c) => if !c@.contains(':') {
            seq![WarningView::UnrestrictedCustom { agent, scope: c@ }]
        } else {
            seq![]
        },
        _ => seq![],
    }
}

/// The warnings that the capabilities of `agent` raise, in order.
pub open spec fn capability_warnings(agent: Seq<char>, caps: Seq<Capability>) -> Seq<WarningView>
    decreases caps.len(),
{
    if caps.len() == 0 {
        seq![]
    } else {
        capability_warnings(agent, caps.drop_last()) + scope_warnings(agent, caps.last().scope)
    }
}

/// Whether the tier lets the agent act without approval.
pub open spec fn is_high_autonomy(tier: Option<AutonomyTier>) -> bool {
    tier == Some(AutonomyTier::Trust) || tier == Some(AutonomyTier::Free)
}

/// Every warning of a profile: those of its capabilities, then the
/// high-autonomy one.
pub open spec fn profile_warnings(p: AuditedProfile) -> Seq<WarningView> {
    capability_warnings(p.name@, p.capabilities@) + if is_high_autonomy(p.autonomy_tier)
        && p.capabilities@.len() >= 3 {
        seq![
            WarningView::HighAutonomyWithBroadScope {
                agent: p.name@,
                tier: tier_text(p.autonomy_tier),
                scope_count: p.capabilities@.len(),
            },
        ]
    } else {
        seq![]
    }
}

/// Law: an agent that acts without approval (tier Trust or Free) and holds
/// three or more capabilities is warned of it, with its name, its tier's
/// name and its capability count, after the warnings of its capabilities;
/// an agent of another tier (Locked, Leash, or the default) or with fewer
/// capabilities gets only the warnings of its capabilities.
pub proof fn lemma_high_autonomy_warning(p: AuditedProfile)
    ensures
        (p.autonomy_tier == Some(AutonomyTier::Trust) || p.autonomy_tier == Some(AutonomyTier::Free))
            && p.capabilities@.len() >= 3 ==> profile_warnings(p) == capability_warnings(
            p.name@,
            p.capabilities@,
        ).push(
            WarningView::HighAutonomyWithBroadScope {
                agent: p.name@,
                tier: if p.autonomy_tier == Some(AutonomyTier::Trust) {
                    "Trust"@
                } else {
                    "Free"@
                },
                scope_count: p.capabilities@.len(),
            },
        ),
        (p.autonomy_tier == Some(AutonomyTier::Locked) || p.autonomy_tier == Some(AutonomyTier::Leash)
            || p.autonomy_tier is None || p.capabilities@.len() < 3) ==> profile_warnings(p)
            == capability_warnings(p.name@, p.capabilities@),
{
    let c = capability_warnings(p.name@, p.capabilities@);
    assert(c + Seq::<WarningView>::empty() =~= c);
}

/// The views of the warnings.
pub open spec fn warning_views(v: Seq<CapabilityWarning>) -> Seq<WarningView> {
    v.map_values(|w: CapabilityWarning| w@)
}

fn push_warning(warnings: &mut Vec<CapabilityWarning>, w: CapabilityWarning)
    ensures
        warning_views(final(warnings)@) == warning_views(old(warnings)@) + seq![w@],
{
    warnings.push(w);
    assert(warning_views(warnings@) =~= warning_views(old(warnings)@) + seq![w@]);
}

/// Adds the warning that one scope raises.
fn check_scope(agent: &String, scope: &CapabilityScope, warnings: &mut Vec<CapabilityWarning>)
    ensures
        warning_views(final(warnings)@) == warning_views(old(warnings)@) + scope_warnings(agent@, *scope),
{
    match scope {
        CapabilityScope::Shell { allowed_commands } => {
            if allowed_commands.len() == 0 {
                push_warning(warnings, CapabilityWarning::WildcardShell { agent: agent.clone() });
                return;
            }
        },
        CapabilityScope::Filesystem { root } => {
            proof {
                reveal_strlit("/");
            }
            let v = to_chars(root.as_str());
            if v.len() == 1 && v[0] == '/' {
                assert(root@ =~= "/"@);
                push_warning(
                    warnings,
                    CapabilityWarning::WildcardFilesystem { agent: agent.clone(), root: root.clone() },
                );
                return;
            }
        },
        CapabilityScope::Network { hosts, .. } => {
            if hosts.len() == 0 {
                push_warning(warnings, CapabilityWarning::WildcardNetwork { agent: agent.clone() });
                return;
            }
        },
        CapabilityScope::Custom(c) => {
            let v = to_chars(c.as_str());
            match find_char(v.as_slice(), ':', 0) {
                None => {
                    proof {
                        crate::text::lemma_find_char_from(v@, ':', 0);
                    }
                    push_warning(
                        warnings,
                        CapabilityWarning::UnrestrictedCustom { agent: agent.clone(), scope: c.clone() },
                    );
                    return;
                },
                Some(k) => {
                    proof {
                        crate::text::lemma_find_char_from(v@, ':', 0);
                    }
                },
            }
        },
        _ => {},
    }
    assert(warning_views(warnings@) =~= warning_views(old(warnings)@) + scope_warnings(agent@, *scope));
}

/// The summary of one capability.
pub open spec fn summary_of(s: CapabilitySummary, c: Capability) -> bool {
    s.scope@ == scope_text(c.scope) && s.pattern@ == c.pattern@
}

/// Summarize one agent profile and add its warnings.
pub fn audit_profile(p: &AuditedProfile, warnings: &mut Vec<CapabilityWarning>) -> (e: AgentCapabilityEntry)
    ensures
        warning_views(final(warnings)@) == warning_views(old(warnings)@) + profile_warnings(*p),
        e.agent_name@ == p.name@,
        e.role@ == p.role@,
        e.autonomy_tier@ == tier_text(p.autonomy_tier),
        e.tool_count == p.tool_ids@.len(),
        e.capabilities@.len() == p.capabilities@.len(),
        forall|i: int|
            0 <= i < p.capabilities@.len() ==> summary_of(
                #[trigger] e.capabilities@[i],
                p.capabilities@[i],
            ),
{
    let mut caps: Vec<CapabilitySummary> = Vec::new();
    let mut i: usize = 0;
    while i < p.capabilities.len()
        invariant
            i <= p.capabilities@.len(),
            caps@.len() == i,
            forall|j: int| 0 <= j < i ==> summary_of(#[trigger] caps@[j], p.capabilities@[j]),
            warning_views(warnings@) == warning_views(old(warnings)@) + capability_warnings(
                p.name@,
                p.capabilities@.take(i as int),
            ),
        decreases p.capabilities@.len() - i,
    {
        let cap = &p.capabilities[i];
        caps.push(CapabilitySummary { scope: format_scope(&cap.scope), pattern: cap.pattern.clone() });
        assert(p.capabilities@.take(i as int + 1).drop_last() =~= p.capabilities@.take(i as int));
        check_scope(&p.name, &cap.scope, warnings);
        i += 1;
    }
    assert(p.capabilities@.take(p.capabilities@.len() as int) =~= p.capabilities@);
    let high = match p.autonomy_tier {
        Some(AutonomyTier::Trust) | Some(AutonomyTier::Free) => true,
        _ => false,
    };
    if high && p.capabilities.len() >= 3 {
        push_warning(
            warnings,
            CapabilityWarning::HighAutonomyWithBroadScope {
                agent: p.name.clone(),
                tier: format_tier(p.autonomy_tier),
                scope_count: p.capabilities.len(),
            },
        );
    } else {
        assert(warning_views(warnings@) =~= warning_views(old(warnings)@) + profile_warnings(*p));
    }
    AgentCapabilityEntry {
        agent_name: p.name.clone(),
        role: p.role.clone(),
        autonomy_tier: format_tier(p.autonomy_tier),
        capabilities: caps,
        tool_count: p.tool_ids.len(),
    }
}

/// Full capability audit report across all agents.
#[derive(Debug, Clone, PartialEq, Eq)]
pub struct CapabilityAuditReport {
    /// When the report was generated (milliseconds since the Unix epoch).
    pub generated_at: i64,
    /// Number of agent profiles scanned.
    pub agents_scanned: usize,
    /// Per-agent capability summaries.
    pub agents: Vec<AgentCapabilityEntry>,
    /// Security warnings found during the scan.
    pub warnings: Vec<CapabilityWarning>,
}

/// The warnings of all profiles, in order.
pub open spec fn all_warnings(ps: Seq<AuditedProfile>) -> Seq<WarningView>
    decreases ps.len(),
{
    if ps.len() == 0 {
        seq![]
    } else {
        all_warnings(ps.drop_last()) + profile_warnings(ps.last())
    }
}

/// Build the audit report of the loaded profiles at `generated_at`.
pub fn audit_agent_capabilities(profiles: &[AuditedProfile], generated_at: i64) -> (r: CapabilityAuditReport)
    ensures
        r.generated_at == generated_at,
        r.agents_scanned == profiles@.len(),
        r.agents@.len() == profiles@.len(),
        forall|i: int|
            0 <= i < profiles@.len() ==> (#[trigger] r.agents@[i]).agent_name@ == profiles@[i].name@
                && r.agents@[i].role@ == profiles@[i].role@ && r.agents@[i].autonomy_tier@ == tier_text(
                profiles@[i].autonomy_tier,
            ) && r.agents@[i].tool_count == profiles@[i].tool_ids@.len()
                && r.agents@[i].capabilities@.len() == profiles@[i].capabilities@.len() && forall|j: int|
                0 <= j < profiles@[i].capabilities@.len() ==> summary_of(
                    #[trigger] r.agents@[i].capabilities@[j],
                    profiles@[i].capabilities@[j],
                ),
        warning_views(r.warnings@) == all_warnings(profiles@),
{
    let mut agents: Vec<AgentCapabilityEntry> = Vec::new();
    let mut warnings: Vec<CapabilityWarning> = Vec::new();
    let mut i: usize = 0;
    assert(warning_views(warnings@) =~= all_warnings(profiles@.take(0)));
    while i < profiles.len()
        invariant
            i <= profiles@.len(),
            agents@.len() == i,
            forall|k: int|
                0 <= k < i ==> (#[trigger] agents@[k]).agent_name@ == profiles@[k].name@
                    && agents@[k].role@ == profiles@[k].role@ && agents@[k].autonomy_tier@ == tier_text(
                    profiles@[k].autonomy_tier,
                ) && agents@[k].tool_count == profiles@[k].tool_ids@.len()
                    && agents@[k].capabilities@.len() == profiles@[k].capabilities@.len() && forall|j: int|
                    0 <= j < profiles@[k].capabilities@.len() ==> summary_of(
                        #[trigger] agents@[k].capabilities@[j],
                        profiles@[k].capabilities@[j],
                    ),
            warning_views(warnings@) == all_warnings(profiles@.take(i as int)),
        decreases profiles@.len() - i,
    {
        assert(profiles@.take(i as int + 1).drop_last() =~= profiles@.take(i as int));
        let e = audit_profile(&profiles[i], &mut warnings);
        agents.push(e);
        i += 1;
    }
    assert(profiles@.take(profiles@.len() as int) =~= profiles@);
    let n = agents.len();
    CapabilityAuditReport { generated_at, agents_scanned: n, agents, warnings }
}

/// Whether a directory entry named `name` is an agent profile: its path's
/// extension, as `Path::extension` reads it (the text after the last `.`,
/// none for a name whose only `.` leads it), is `toml`.
pub open spec fn is_profile_file_spec(name: Seq<char>) -> bool {
    ends_with(name, ".toml"@) && name.len() > 5
}

/// Whether the entry `name` of the agents directory is scanned.
pub fn is_profile_file(name: &str) -> (b: bool)
    ensures
        b == is_profile_file_spec(name@),
{
    let cs = to_chars(name);
    cs.len() > 5 && ends_with_exec(&cs, ".toml")
}

/// Indices of the profile files among the entries `names`, in order.
pub open spec fn profile_indices(names: Seq<String>) -> Seq<usize>
    decreases names.len(),
{
    if names.len() == 0 {
        seq![]
    } else if is_profile_file_spec(names.last()@) {
        profile_indices(names.drop_last()).push((names.len() - 1) as usize)
    } else {
        profile_indices(names.drop_last())
    }
}

/// The entries of the agents directory that the audit reads, by index.
pub fn profile_files(names: &[String]) -> (r: Vec<usize>)
    ensures
        r@ == profile_indices(names@),
{
    let mut r: Vec<usize> = Vec::new();
    let mut i: usize = 0;
    while i < names.len()
        invariant
            i <= names@.len(),
            r@ == profile_indices(names@.take(i as int)),
        decreases names@.len() - i,
    {
        assert(names@.take(i as int + 1).drop_last() =~= names@.take(i as int));
        if is_profile_file(names[i].as_str()) {
            r.push(i);
        }
        i += 1;
    }
    assert(names@.take(names@.len() as int) =~= names@);
    r
}

} // verus!
