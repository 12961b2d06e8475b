//! Channel configuration endpoints: platforms, summaries and updates.
use vstd::prelude::*;
use vstd::string::*;

use crate::channels::manager::ChannelConfig;
use crate::error::{AivyxError, ServerError};
use crate::text::str_eq;

verus! {

/// Response item for channel listing.
#[derive(Debug, Clone, PartialEq, Eq)]
pub struct ChannelSummary {
    /// Channel name.
    pub name: String,
    /// Platform name.
    pub platform: String,
    /// Agent that answers.
    pub agent: String,
    /// Whether the channel is started.
    pub enabled: bool,
    /// Users allowed to talk to the agent.
    pub allowed_users: Vec<String>,
}

/// Request body for `POST /channels`.
#[derive(Debug, Clone, PartialEq, Eq)]
pub struct CreateChannelRequest {
    /// Channel name.
    pub name: String,
    /// Platform name (any case).
    pub platform: String,
    /// Agent that answers.
    pub agent: String,
    /// Users allowed to talk to the agent.
    pub allowed_users: Vec<String>,
    /// Platform-specific settings.
    pub settings: Vec<(String, String)>,
}

/// Request body for `PUT /channels/:name`: only the fields present change.
#[derive(Debug, Clone, PartialEq, Eq)]
pub struct UpdateChannelRequest {
    /// New agent.
    pub agent: Option<String>,
    /// New state.
    pub enabled: Option<bool>,
    /// New allowlist.
    pub allowed_users: Option<Vec<String>>,
    /// New settings.
    pub settings: Option<Vec<(String, String)>>,
}

/// The messaging platforms a channel can use.
#[derive(Debug, Clone, Copy, PartialEq, Eq, Structural)]
pub enum ChannelPlatform {
    /// Telegram bot.
    Telegram,
    /// Email inbox.
    Email,
    /// Discord bot.
    Discord,
    /// Slack app.
    Slack,
    /// Matrix bot.
    Matrix,
}

/// Name of a platform.
pub open spec fn platform_name(p: ChannelPlatform) -> Seq<char> {
    match p {
        ChannelPlatform::Telegram => "telegram"@,
        ChannelPlatform::Email => "email"@,
        ChannelPlatform::Discord => "discord"@,
        ChannelPlatform::Slack => "slack"@,
        ChannelPlatform::Matrix => "matrix"@,
    }
}

impl ChannelPlatform {
    /// Name of the platform.
    pub fn name(&self) -> (s: String)
        ensures
            s@ == platform_name(*self),
    {
        match self {
            ChannelPlatform::Telegram => "telegram".to_owned(),
            ChannelPlatform::Email => "email".to_owned(),
            ChannelPlatform::Discord => "discord".to_owned(),
            ChannelPlatform::Slack => "slack".to_owned(),
            ChannelPlatform::Matrix => "matrix".to_owned(),
        }
    }
}

/// The lower-case form of a text, as `str::to_lowercase` gives it.
pub uninterp spec fn lowercase_of(s: Seq<char>) -> Seq<char>;

/// Lower-cases a text, by `str::to_lowercase` (full Unicode mapping).
#[verifier::external_body]
fn to_lowercase(s: &str) -> (r: String)
    ensures
        r@ == lowercase_of(s@),
{
    s.to_lowercase()
}

/// The platform a name selects once lower-cased.
pub open spec fn platform_spec(lower: Seq<char>) -> Option<ChannelPlatform> {
    if lower == "telegram"@ {
        Some(ChannelPlatform::Telegram)
    } else if lower == "email"@ {
        Some(ChannelPlatform::Email)
    } else if lower == "discord"@ {
        Some(ChannelPlatform::Discord)
    } else if lower == "slack"@ {
        Some(ChannelPlatform::Slack)
    } else if lower == "matrix"@ {
        Some(ChannelPlatform::Matrix)
    } else {
        None
    }
}

/// Reads a platform name in any case; an unknown one is refused with
/// `unknown platform: <lower-cased name>`.
pub fn parse_platform(name: &str) -> (r: Result<ChannelPlatform, ServerError>)
    ensures
        match platform_spec(lowercase_of(name@)) {
            Some(p) => r == Ok::<ChannelPlatform, ServerError>(p),
            None => r matches Err(ServerError(AivyxError::Config(m))) && m@ == "unknown platform: "@
                + lowercase_of(name@),
        },
{
    let lower = to_lowercase(name);
    let l = lower.as_str();
    if str_eq(l, "telegram") {
        Ok(ChannelPlatform::Telegram)
    } else if str_eq(l, "email") {
        Ok(ChannelPlatform::Email)
    } else if str_eq(l, "discord") {
        Ok(ChannelPlatform::Discord)
    } else if str_eq(l, "slack") {
        Ok(ChannelPlatform::Slack)
    } else if str_eq(l, "matrix") {
        Ok(ChannelPlatform::Matrix)
    } else {
        let mut m = "unknown platform: ".to_owned();
        m.append(l);
        Err(ServerError(AivyxError::Config(m)))
    }
}

/// The summary of a new channel: enabled, with the request's fields.
pub fn created_summary(req: CreateChannelRequest, platform: ChannelPlatform) -> (s: ChannelSummary)
    ensures
        s.name == req.name,
        s.platform@ == platform_name(platform),
        s.agent == req.agent,
        s.enabled,
        s.allowed_users == req.allowed_users,
{
    ChannelSummary {
        name: req.name,
        platform: platform.name(),
        agent: req.agent,
        enabled: true,
        allowed_users: req.allowed_users,
    }
}

/// Merge a partial update into a channel's configuration.
pub fn apply_channel_update(c: &mut ChannelConfig, req: UpdateChannelRequest)
    ensures
        final(c).name == old(c).name,
        final(c).platform == old(c).platform,
        final(c).agent == match req.agent {
            Some(a) => a,
            None => old(c).agent,
        },
        final(c).enabled == match req.enabled {
            Some(e) => e,
            None => old(c).enabled,
        },
        final(c).allowed_users == match req.allowed_users {
            Some(u) => u,
            None => old(c).allowed_users,
        },
        final(c).settings == match req.settings {
            Some(s) => s,
            None => old(c).settings,
        },
{
    if let Some(agent) = req.agent {
        c.agent = agent;
    }
    if let Some(enabled) = req.enabled {
        c.enabled = enabled;
    }
    if let Some(users) = req.allowed_users {
        c.allowed_users = users;
    }
    if let Some(settings) = req.settings {
        c.settings = settings;
    }
}

/// `channel not found: <name>`.
pub fn channel_not_found(name: &str) -> (e: ServerError)
    ensures
        e.0 matches AivyxError::Config(m) && m@ == "channel not found: "@ + name@,
{
    let mut m = "channel not found: ".to_owned();
    m.append(name);
    ServerError(AivyxError::Config(m))
}

} // verus!
