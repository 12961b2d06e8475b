//! Agent profile management: listing items, the errors of the endpoints,
//! and how a partial update merges into a profile.
use vstd::prelude::*;
use vstd::string::*;

use crate::engine::AutonomyTier;
use crate::error::{AivyxError, ServerError};
use crate::text::str_eq;
use crate::validation::{is_safe_name, validate_name};

verus! {

/// Response item for agent listing.
#[derive(Debug, Clone, PartialEq, Eq)]
pub struct AgentSummary {
    /// Agent profile name (filename without `.toml`).
    pub name: String,
    /// The agent's role description.
    pub role: String,
}

/// The fields of an agent profile that the API changes. The persona is
/// carried as its JSON text.
#[derive(Debug, Clone, PartialEq, Eq)]
pub struct AgentProfile {
    /// Profile name.
    pub name: String,
    /// Role description.
    pub role: String,
    /// System prompt.
    pub soul: String,
    /// Tools the agent may use.
    pub tool_ids: Vec<String>,
    /// Skills.
    pub skills: Vec<String>,
    /// Autonomy tier override.
    pub autonomy_tier: Option<AutonomyTier>,
    /// Named provider.
    pub provider: Option<String>,
    /// Maximum tokens of a response.
    pub max_tokens: u32,
    /// Structured persona, as JSON text.
    pub persona: Option<String>,
}

/// Request body for `PUT /agents/:name`: only the fields present change.
#[derive(Debug, Clone, PartialEq, Eq)]
pub struct UpdateAgentRequest {
    /// Agent role description.
    pub role: Option<String>,
    /// System prompt (soul).
    pub soul: Option<String>,
    /// Tool IDs this agent may use.
    pub tool_ids: Option<Vec<String>>,
    /// Skills list.
    pub skills: Option<Vec<String>>,
    /// Autonomy tier override.
    pub autonomy_tier: Option<AutonomyTier>,
    /// Named provider reference (empty clears it).
    pub provider: Option<String>,
    /// Maximum tokens for LLM responses.
    pub max_tokens: Option<u32>,
    /// Structured persona, as JSON text (replaces the existing one).
    pub persona: Option<String>,
    /// MCP server configurations, as JSON texts. Never applied: MCP servers
    /// are configured through profile files only.
    pub mcp_servers: Option<Vec<String>>,
}

/// The names of the fields a request changes, in declaration order.
pub open spec fn changed_fields_spec(r: UpdateAgentRequest) -> Seq<Seq<char>> {
    (if r.role is Some { seq!["role"@] } else { seq![] }) + (if r.soul is Some {
        seq!["soul"@]
    } else {
        seq![]
    }) + (if r.tool_ids is Some { seq!["tool_ids"@] } else { seq![] }) + (if r.skills is Some {
        seq!["skills"@]
    } else {
        seq![]
    }) + (if r.autonomy_tier is Some { seq!["autonomy_tier"@] } else { seq![] }) + (
    if r.provider is Some {
        seq!["provider"@]
    } else {
        seq![]
    }) + (if r.max_tokens is Some { seq!["max_tokens"@] } else { seq![] }) + (if r.persona is Some {
        seq!["persona"@]
    } else {
        seq![]
    })
}

fn push_if(v: &mut Vec<String>, cond: bool, name: &str)
    ensures
        final(v)@.map_values(|s: String| s@) == old(v)@.map_values(|s: String| s@) + if cond {
            seq![name@]
        } else {
            seq![]
        },
{
    let ghost before = v@;
    if cond {
        v.push(name.to_owned());
    }
    assert(v@.map_values(|s: String| s@) =~= before.map_values(|s: String| s@) + if cond {
        seq![name@]
    } else {
        seq![]
    });
}

/// The fields a request changes, for the audit log.
pub fn changed_fields(req: &UpdateAgentRequest) -> (v: Vec<String>)
    ensures
        v@.map_values(|s: String| s@) == changed_fields_spec(*req),
{
    let mut v: Vec<String> = Vec::new();
    assert(v@.map_values(|s: String| s@) =~= Seq::<Seq<char>>::empty());
    push_if(&mut v, req.role.is_some(), "role");
    push_if(&mut v, req.soul.is_some(), "soul");
    push_if(&mut v, req.tool_ids.is_some(), "tool_ids");
    push_if(&mut v, req.skills.is_some(), "skills");
    push_if(&mut v, req.autonomy_tier.is_some(), "autonomy_tier");
    push_if(&mut v, req.provider.is_some(), "provider");
    push_if(&mut v, req.max_tokens.is_some(), "max_tokens");
    push_if(&mut v, req.persona.is_some(), "persona");
    assert(v@.map_values(|s: String| s@) =~= changed_fields_spec(*req));
    v
}

/// The profile after a partial update: each present field replaces the
/// profile's; an empty provider clears it; MCP servers never change.
pub open spec fn updated_profile(p: AgentProfile, r: UpdateAgentRequest) -> AgentProfile {
    AgentProfile {
        name: p.name,
        role: match r.role {
            Some(v) => v,
            None => p.role,
        },
        soul: match r.soul {
            Some(v) => v,
            None => p.soul,
        },
        tool_ids: match r.tool_ids {
            Some(v) => v,
            None => p.tool_ids,
        },
        skills: match r.skills {
            Some(v) => v,
            None => p.skills,
        },
        autonomy_tier: match r.autonomy_tier {
            Some(t) => Some(t),
            None => p.autonomy_tier,
        },
        provider: match r.provider {
            Some(v) => if v@.len() == 0 {
                None
            } else {
                Some(v)
            },
            None => p.provider,
        },
        max_tokens: match r.max_tokens {
            Some(v) => v,
            None => p.max_tokens,
        },
        persona: match r.persona {
            Some(v) => Some(v),
            None => p.persona,
        },
    }
}

/// Merge a partial update into a profile.
pub fn apply_update(profile: &mut AgentProfile, req: UpdateAgentRequest)
    ensures
        *final(profile) == updated_profile(*old(profile), req),
{
    if let Some(role) = req.role {
        profile.role = role;
    }
    if let Some(soul) = req.soul {
        profile.soul = soul;
    }
    if let Some(tool_ids) = req.tool_ids {
        profile.tool_ids = tool_ids;
    }
    if let Some(skills) = req.skills {
        profile.skills = skills;
    }
    if let Some(tier) = req.autonomy_tier {
        profile.autonomy_tier = Some(tier);
    }
    if let Some(provider) = req.provider {
        if provider.as_str().as_bytes().len() == 0 {
            proof {
                vstd::utf8::encode_utf8_decode_utf8(provider@);
            }
            profile.provider = None;
        } else {
            profile.provider = Some(provider);
        }
    }
    if let Some(max_tokens) = req.max_tokens {
        profile.max_tokens = max_tokens;
    }
    if let Some(persona) = req.persona {
        profile.persona = Some(persona);
    }
}

/// `agent not found: <name>`.
pub fn agent_not_found(name: &str) -> (e: ServerError)
    ensures
        e.0 matches AivyxError::Config(m) && m@ == "agent not found: "@ + name@,
{
    let mut m = "agent not found: ".to_owned();
    m.append(name);
    ServerError(AivyxError::Config(m))
}

/// `agent already exists: <name>`.
pub fn agent_exists(name: &str) -> (e: ServerError)
    ensures
        e.0 matches AivyxError::Config(m) && m@ == "agent already exists: "@ + name@,
{
    let mut m = "agent already exists: ".to_owned();
    m.append(name);
    ServerError(AivyxError::Config(m))
}

/// `agent '<name>' has no persona configured`.
pub fn no_persona(name: &str) -> (e: ServerError)
    ensures
        e.0 matches AivyxError::Config(m) && m@ == "agent '"@ + name@ + "' has no persona configured"@,
{
    let mut m = "agent '".to_owned();
    m.append(name);
    m.append("' has no persona configured");
    ServerError(AivyxError::Config(m))
}

/// `unknown preset: <name>`.
pub fn unknown_preset(name: &str) -> (e: ServerError)
    ensures
        e.0 matches AivyxError::Config(m) && m@ == "unknown preset: "@ + name@,
{
    let mut m = "unknown preset: ".to_owned();
    m.append(name);
    ServerError(AivyxError::Config(m))
}

/// The default agent cannot be deleted.
pub fn check_deletable(name: &str) -> (r: Result<(), ServerError>)
    ensures
        name@ == "aivyx"@ ==> (r matches Err(ServerError(AivyxError::Config(m))) && m@
            == "cannot delete the default agent"@),
        name@ != "aivyx"@ ==> r is Ok,
{
    if str_eq(name, "aivyx") {
        Err(ServerError(AivyxError::Config("cannot delete the default agent".to_owned())))
    } else {
        Ok(())
    }
}

/// Request body for `POST /agents`.
#[derive(Debug, Clone, PartialEq, Eq)]
pub struct CreateAgentRequest {
    /// Agent name.
    pub name: String,
    /// Agent role description.
    pub role: String,
    /// System prompt (soul).
    pub soul: Option<String>,
    /// Structured persona, as JSON text (overrides the template's).
    pub persona: Option<String>,
}

/// Request body for `POST /agents/:name/duplicate`.
#[derive(Debug, Clone, PartialEq, Eq)]
pub struct DuplicateAgentRequest {
    /// Name for the duplicated agent.
    pub new_name: String,
}

/// Whether an agent may be created under `name`, given whether its profile
/// file already exists: the name must be safe, and not taken.
pub fn check_create_agent(name: &str, exists: bool) -> (r: Result<(), ServerError>)
    ensures
        r is Ok <==> is_safe_name(name, 64) && !exists,
        !is_safe_name(name, 64) ==> (r matches Err(ServerError(AivyxError::Config(m))) && m@
            == "invalid resource name: "@ + name@),
        is_safe_name(name, 64) && exists ==> (r matches Err(ServerError(AivyxError::Config(m)))
            && m@ == "agent already exists: "@ + name@),
{
    validate_name(name)?;
    if exists {
        return Err(agent_exists(name));
    }
    Ok(())
}

/// The profile created from the template for the request: the template
/// with the request's soul and persona where they are given.
pub open spec fn created_profile_spec(template: AgentProfile, req: CreateAgentRequest) -> AgentProfile {
    AgentProfile {
        soul: match req.soul {
            Some(s) => s,
            None => template.soul,
        },
        persona: match req.persona {
            Some(p) => Some(p),
            None => template.persona,
        },
        ..template
    }
}

/// Fill the template profile of a new agent with the request's soul and
/// persona.
pub fn created_profile(template: AgentProfile, req: CreateAgentRequest) -> (p: AgentProfile)
    ensures
        p == created_profile_spec(template, req),
{
    let mut p = template;
    if let Some(persona) = req.persona {
        p.persona = Some(persona);
    }
    if let Some(soul) = req.soul {
        p.soul = soul;
    }
    p
}

/// Whether `source` may be copied to `new_name`, given whether the two
/// profile files exist: both names must be safe, the source must exist
/// and the target must not.
pub fn check_duplicate(source: &str, new_name: &str, source_exists: bool, target_exists: bool) -> (r:
    Result<(), ServerError>)
    ensures
        r is Ok <==> is_safe_name(source, 64) && is_safe_name(new_name, 64) && source_exists
            && !target_exists,
        !is_safe_name(source, 64) ==> (r matches Err(ServerError(AivyxError::Config(m))) && m@
            == "invalid resource name: "@ + source@),
        is_safe_name(source, 64) && !is_safe_name(new_name, 64) ==> (r matches Err(
            ServerError(AivyxError::Config(m)),
        ) && m@ == "invalid resource name: "@ + new_name@),
        is_safe_name(source, 64) && is_safe_name(new_name, 64) && !source_exists ==> (r matches Err(
            ServerError(AivyxError::Config(m)),
        ) && m@ == "agent not found: "@ + source@),
        is_safe_name(source, 64) && is_safe_name(new_name, 64) && source_exists && target_exists
            ==> (r matches Err(ServerError(AivyxError::Config(m))) && m@ == "agent already exists: "@
            + new_name@),
{
    validate_name(source)?;
    validate_name(new_name)?;
    if !source_exists {
        return Err(agent_not_found(source));
    }
    if target_exists {
        return Err(agent_exists(new_name));
    }
    Ok(())
}

/// The copy of a profile under a new name: everything else is kept.
pub fn duplicated_profile(profile: AgentProfile, new_name: String) -> (p: AgentProfile)
    ensures
        p == (AgentProfile { name: new_name, ..profile }),
{
    AgentProfile { name: new_name, ..profile }
}

} // verus!
