//! Plugin endpoints: installed plugins and how an install request becomes
//! a plugin entry.
use vstd::prelude::*;
use vstd::string::*;

use crate::error::{AivyxError, ServerError};
use crate::text::str_eq;

verus! {

/// Response item for plugin listing.
#[derive(Debug, Clone, PartialEq, Eq)]
pub struct PluginSummary {
    /// Plugin name.
    pub name: String,
    /// Version.
    pub version: String,
    /// What the plugin does.
    pub description: String,
    /// Whether the plugin is active.
    pub enabled: bool,
    /// Author.
    pub author: Option<String>,
}

/// Request body for `POST /plugins`.
#[derive(Debug, Clone, PartialEq, Eq)]
pub struct InstallPluginRequest {
    /// Plugin name.
    pub name: String,
    /// What the plugin does.
    pub description: String,
    /// Command that starts the plugin's MCP server (stdio).
    pub command: String,
    /// Arguments of the command.
    pub args: Vec<String>,
    /// Version (default `0.1.0`).
    pub version: Option<String>,
    /// Author.
    pub author: Option<String>,
}

/// An installed plugin: a local MCP server reached over stdio.
#[derive(Debug, Clone, PartialEq, Eq)]
pub struct PluginEntry {
    /// Plugin name (also the MCP server's name).
    pub name: String,
    /// Version.
    pub version: String,
    /// What the plugin does.
    pub description: String,
    /// Author.
    pub author: Option<String>,
    /// Command that starts the MCP server (also the plugin's local source).
    pub command: String,
    /// Arguments of the command.
    pub args: Vec<String>,
    /// Seconds the MCP server has to answer.
    pub timeout_secs: u64,
    /// When the plugin was installed (milliseconds since the Unix epoch).
    pub installed_at: i64,
    /// Whether the plugin is active.
    pub enabled: bool,
}

/// Seconds a plugin's MCP server has to answer.
pub const PLUGIN_TIMEOUT_SECS: u64 = 30;

/// The entry an install request creates at `now`: enabled, version
/// `0.1.0` unless given, with a 30-second timeout.
pub fn plugin_entry(req: InstallPluginRequest, now: i64) -> (e: PluginEntry)
    ensures
        e.name == req.name,
        e.description == req.description,
        e.author == req.author,
        e.command == req.command,
        e.args == req.args,
        match req.version {
            Some(v) => e.version == v,
            None => e.version@ == "0.1.0"@,
        },
        e.timeout_secs == PLUGIN_TIMEOUT_SECS,
        e.installed_at == now,
        e.enabled,
{
    let version = match req.version {
        Some(v) => v,
        None => "0.1.0".to_owned(),
    };
    PluginEntry {
        name: req.name,
        version,
        description: req.description,
        author: req.author,
        command: req.command,
        args: req.args,
        timeout_secs: PLUGIN_TIMEOUT_SECS,
        installed_at: now,
        enabled: true,
    }
}

/// The listing item of an entry.
pub fn plugin_summary(e: &PluginEntry) -> (s: PluginSummary)
    ensures
        s.name@ == e.name@,
        s.version@ == e.version@,
        s.description@ == e.description@,
        s.enabled == e.enabled,
        match e.author {
            Some(a) => s.author matches Some(b) && b@ == a@,
            None => s.author is None,
        },
{
    let author = match &e.author {
        Some(a) => Some(a.clone()),
        None => None,
    };
    PluginSummary {
        name: e.name.clone(),
        version: e.version.clone(),
        description: e.description.clone(),
        enabled: e.enabled,
        author,
    }
}

/// Refuses to install a plugin whose name is already installed.
pub fn check_not_installed(installed: &Vec<PluginEntry>, name: &str) -> (r: Result<(), ServerError>)
    ensures
        r is Ok <==> forall|i: int| 0 <= i < installed@.len() ==> (#[trigger] installed@[i]).name@ != name@,
        r matches Err(ServerError(AivyxError::Config(m))) ==> m@ == "plugin '"@ + name@ + "' already installed"@,
        r matches Err(ServerError(e)) ==> e is Config,
{
    let mut i: usize = 0;
    while i < installed.len()
        invariant
            i <= installed@.len(),
            forall|j: int| 0 <= j < i ==> (#[trigger] installed@[j]).name@ != name@,
        decreases installed@.len() - i,
    {
        if str_eq(installed[i].name.as_str(), name) {
            let mut m = "plugin '".to_owned();
            m.append(name);
            m.append("' already installed");
            return Err(ServerError(AivyxError::Config(m)));
        }
        i += 1;
    }
    Ok(())
}

/// `plugin not found: <name>`.
pub fn plugin_not_found(name: &str) -> (e: ServerError)
    ensures
        e.0 matches AivyxError::Config(m) && m@ == "plugin not found: "@ + name@,
{
    let mut m = "plugin not found: ".to_owned();
    m.append(name);
    ServerError(AivyxError::Config(m))
}

} // verus!
