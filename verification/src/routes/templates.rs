//! The catalogue of plugin templates offered for one-click install.
use vstd::prelude::*;
use vstd::string::*;

verus! {

/// A ready-made MCP server configuration.
#[derive(Debug, Clone)]
pub struct PluginTemplate {
    /// Template ID.
    pub id: &'static str,
    /// Display name.
    pub name: &'static str,
    /// What the plugin does.
    pub description: &'static str,
    /// Catalogue section.
    pub category: &'static str,
    /// Icon.
    pub icon: &'static str,
    /// Command that starts the MCP server.
    pub command: &'static str,
    /// Arguments of the command.
    pub args: Vec<&'static str>,
    /// Environment variables the plugin needs.
    pub env_hints: Vec<&'static str>,
    /// Whether the plugin needs an API key.
    pub requires_api_key: bool,
}

/// The IDs of the templates, in catalogue order.
pub open spec fn template_ids() -> Seq<Seq<char>> {
    seq!["brave-search"@, "web-search"@, "fetch"@, "tavily"@, "filesystem"@, "google-drive"@, "everart"@, "slack"@, "gmail"@, "bluesky"@, "google-calendar"@, "notion"@, "todoist"@, "google-maps"@, "home-assistant"@, "spotify"@, "apple-notes"@, "memory"@, "sqlite"@, "sequential-thinking"@, "puppeteer"@, "youtube"@, "github"@]
}

/// Whether each template needs an API key, in catalogue order.
pub open spec fn template_key_flags() -> Seq<bool> {
    seq![true, false, false, true, false, true, true, true, true, true, true, true, true, true, true, true, false, false, false, false, false, false, true]
}

/// The plugin templates, in catalogue order.
pub fn plugin_templates() -> (t: Vec<PluginTemplate>)
    ensures
        t@.len() == template_ids().len(),
        forall|i: int| 0 <= i < t@.len() ==> (#[trigger] t@[i]).id@ == template_ids()[i]
            && t@[i].requires_api_key == template_key_flags()[i] && t@[i].command@ == "npx"@,
{
    let mut t: Vec<PluginTemplate> = Vec::new();
    t.push(PluginTemplate {
        id: "brave-search",
        name: "Brave Search",
        description: "Search the web using Brave's privacy-focused search engine",
        category: "Search & Information",
        icon: "🔍",
        command: "npx",
        args: vec!["-y", "@modelcontextprotocol/server-brave-search"],
        env_hints: vec!["BRAVE_API_KEY"],
        requires_api_key: true,
    });
    t.push(PluginTemplate {
        id: "web-search",
        name: "Web Search",
        description: "Search the web without API keys using DuckDuckGo",
        category: "Search & Information",
        icon: "🌐",
        command: "npx",
        args: vec!["-y", "@anthropic/mcp-server-web-search"],
        env_hints: vec![],
        requires_api_key: false,
    });
    t.push(PluginTemplate {
        id: "fetch",
        name: "Fetch",
        description: "Read and extract content from any webpage or URL",
        category: "Search & Information",
        icon: "📰",
        command: "npx",
        args: vec!["-y", "@modelcontextprotocol/server-fetch"],
        env_hints: vec![],
        requires_api_key: false,
    });
    t.push(PluginTemplate {
        id: "tavily",
        name: "Tavily Search",
        description: "AI-optimized search with curated, structured results",
        category: "Search & Information",
        icon: "🎯",
        command: "npx",
        args: vec!["-y", "tavily-mcp@latest"],
        env_hints: vec!["TAVILY_API_KEY"],
        requires_api_key: true,
    });
    t.push(PluginTemplate {
        id: "filesystem",
        name: "File System",
        description: "Browse, read, write, and search files on your computer",
        category: "Files & Documents",
        icon: "📁",
        command: "npx",
        args: vec!["-y", "@modelcontextprotocol/server-filesystem", "/home"],
        env_hints: vec![],
        requires_api_key: false,
    });
    t.push(PluginTemplate {
        id: "google-drive",
        name: "Google Drive",
        description: "Access, search, and manage your Google Drive files",
        category: "Files & Documents",
        icon: "☁️",
        command: "npx",
        args: vec!["-y", "@modelcontextprotocol/server-gdrive"],
        env_hints: vec!["GOOGLE_CLIENT_ID", "GOOGLE_CLIENT_SECRET"],
        requires_api_key: true,
    });
    t.push(PluginTemplate {
        id: "everart",
        name: "EverArt",
        description: "Generate and manage digital artwork and images",
        category: "Files & Documents",
        icon: "🖼️",
        command: "npx",
        args: vec!["-y", "@modelcontextprotocol/server-everart"],
        env_hints: vec!["EVERART_API_KEY"],
        requires_api_key: true,
    });
    t.push(PluginTemplate {
        id: "slack",
        name: "Slack",
        description: "Send messages, search conversations, and manage Slack channels",
        category: "Communication",
        icon: "💬",
        command: "npx",
        args: vec!["-y", "@modelcontextprotocol/server-slack"],
        env_hints: vec!["SLACK_BOT_TOKEN", "SLACK_TEAM_ID"],
        requires_api_key: true,
    });
    t.push(PluginTemplate {
        id: "gmail",
        name: "Gmail",
        description: "Read, search, compose, and manage your email",
        category: "Communication",
        icon: "📧",
        command: "npx",
        args: vec!["-y", "@anthropic/mcp-server-gmail"],
        env_hints: vec!["GOOGLE_CLIENT_ID", "GOOGLE_CLIENT_SECRET"],
        requires_api_key: true,
    });
    t.push(PluginTemplate {
        id: "bluesky",
        name: "Bluesky",
        description: "Post, search, and interact on the Bluesky social network",
        category: "Communication",
        icon: "🦋",
        command: "npx",
        args: vec!["-y", "@modelcontextprotocol/server-bluesky"],
        env_hints: vec!["BLUESKY_HANDLE", "BLUESKY_APP_PASSWORD"],
        requires_api_key: true,
    });
    t.push(PluginTemplate {
        id: "google-calendar",
        name: "Google Calendar",
        description: "View, create, and manage calendar events and schedules",
        category: "Productivity",
        icon: "📅",
        command: "npx",
        args: vec!["-y", "@anthropic/mcp-server-google-calendar"],
        env_hints: vec!["GOOGLE_CLIENT_ID", "GOOGLE_CLIENT_SECRET"],
        requires_api_key: true,
    });
    t.push(PluginTemplate {
        id: "notion",
        name: "Notion",
        description: "Access, search, and update your Notion pages and databases",
        category: "Productivity",
        icon: "📝",
        command: "npx",
        args: vec!["-y", "@notionhq/mcp-server-notion"],
        env_hints: vec!["NOTION_API_KEY"],
        requires_api_key: true,
    });
    t.push(PluginTemplate {
        id: "todoist",
        name: "Todoist",
        description: "Manage tasks, projects, and to-do lists",
        category: "Productivity",
        icon: "✅",
        command: "npx",
        args: vec!["-y", "@anthropic/mcp-server-todoist"],
        env_hints: vec!["TODOIST_API_TOKEN"],
        requires_api_key: true,
    });
    t.push(PluginTemplate {
        id: "google-maps",
        name: "Google Maps",
        description: "Get directions, find places, and explore locations",
        category: "Productivity",
        icon: "🗺️",
        command: "npx",
        args: vec!["-y", "@modelcontextprotocol/server-google-maps"],
        env_hints: vec!["GOOGLE_MAPS_API_KEY"],
        requires_api_key: true,
    });
    t.push(PluginTemplate {
        id: "home-assistant",
        name: "Home Assistant",
        description: "Control smart home devices, check sensors, and run automations",
        category: "Smart Home & Life",
        icon: "🏠",
        command: "npx",
        args: vec!["-y", "@keithah/mcp-server-home-assistant"],
        env_hints: vec!["HA_URL", "HA_TOKEN"],
        requires_api_key: true,
    });
    t.push(PluginTemplate {
        id: "spotify",
        name: "Spotify",
        description: "Control music playback, search songs, and manage playlists",
        category: "Smart Home & Life",
        icon: "🎵",
        command: "npx",
        args: vec!["-y", "@modelcontextprotocol/server-spotify"],
        env_hints: vec!["SPOTIFY_CLIENT_ID", "SPOTIFY_CLIENT_SECRET"],
        requires_api_key: true,
    });
    t.push(PluginTemplate {
        id: "apple-notes",
        name: "Apple Notes",
        description: "Search and read your Apple Notes",
        category: "Smart Home & Life",
        icon: "🍎",
        command: "npx",
        args: vec!["-y", "@anthropic/mcp-server-apple-notes"],
        env_hints: vec![],
        requires_api_key: false,
    });
    t.push(PluginTemplate {
        id: "memory",
        name: "Memory",
        description: "Persistent key-value memory that survives across conversations",
        category: "Knowledge & Learning",
        icon: "🧠",
        command: "npx",
        args: vec!["-y", "@modelcontextprotocol/server-memory"],
        env_hints: vec![],
        requires_api_key: false,
    });
    t.push(PluginTemplate {
        id: "sqlite",
        name: "SQLite",
        description: "Query and manage local SQLite databases",
        category: "Knowledge & Learning",
        icon: "🗄️",
        command: "npx",
        args: vec!["-y", "@modelcontextprotocol/server-sqlite"],
        env_hints: vec![],
        requires_api_key: false,
    });
    t.push(PluginTemplate {
        id: "sequential-thinking",
        name: "Sequential Thinking",
        description: "Break down complex problems into structured reasoning steps",
        category: "Knowledge & Learning",
        icon: "💡",
        command: "npx",
        args: vec!["-y", "@modelcontextprotocol/server-sequential-thinking"],
        env_hints: vec![],
        requires_api_key: false,
    });
    t.push(PluginTemplate {
        id: "puppeteer",
        name: "Browser Automation",
        description: "Automate web browsing, take screenshots, and fill forms",
        category: "Creative & Media",
        icon: "🌐",
        command: "npx",
        args: vec!["-y", "@modelcontextprotocol/server-puppeteer"],
        env_hints: vec![],
        requires_api_key: false,
    });
    t.push(PluginTemplate {
        id: "youtube",
        name: "YouTube",
        description: "Search videos, get transcripts, and extract video information",
        category: "Creative & Media",
        icon: "▶️",
        command: "npx",
        args: vec!["-y", "@anthropic/mcp-server-youtube"],
        env_hints: vec![],
        requires_api_key: false,
    });
    t.push(PluginTemplate {
        id: "github",
        name: "GitHub",
        description: "Manage repositories, issues, and pull requests",
        category: "Developer",
        icon: "💻",
        command: "npx",
        args: vec!["-y", "@modelcontextprotocol/server-github"],
        env_hints: vec!["GITHUB_PERSONAL_ACCESS_TOKEN"],
        requires_api_key: true,
    });
    t
}

} // verus!
