//! Data of the MCP overlay: servers, settings, catalog entries and sources
//! as the overlay receives them, and its tab, mode and filter enums.

use vstd::prelude::*;

use crate::mcp_overlay::editor::CatalogConfigItem;
use crate::text::{concat, copy_str, str_eq};

verus! {

/// Run state of an MCP server.
#[derive(Debug, Clone, Copy, PartialEq, Eq, Structural)]
pub enum McpServerStatusView {
    Running,
    Starting,
    Stopped,
    Failed,
}

/// An MCP server known to the runtime.
#[derive(Debug, PartialEq, Eq)]
pub struct McpServerEntry {
    pub server_id: String,
    pub status: McpServerStatusView,
    pub trusted: bool,
    pub tool_count: usize,
}

/// Configured settings of an MCP server.
#[derive(Debug, PartialEq, Eq)]
pub struct McpServerSettingsView {
    pub id: String,
    pub name: String,
    pub transport: String,
    pub enabled: bool,
    pub runtime_status: String,
    pub trusted: bool,
    pub tool_count: Option<usize>,
    pub last_error: Option<String>,
    pub writable: bool,
    pub config_path: Option<String>,
    pub description: Option<String>,
    pub source: String,
    pub verified: bool,
    pub diagnostic_summary: String,
}

/// A server installed from the catalog.
#[derive(Debug, PartialEq, Eq)]
pub struct InstalledEntry {
    pub server_id: String,
    pub catalog_id: Option<String>,
    pub source: Option<String>,
    pub display_name: String,
    pub installed_at: String,
    pub running: bool,
}

/// A catalog entry. `config_items` holds the configuration that its
/// install spec and default environment ask for.
#[derive(Debug, PartialEq, Eq)]
pub struct ServerEntry {
    pub id: String,
    pub source: String,
    pub display_name: String,
    pub summary: String,
    pub description: String,
    pub categories: Vec<String>,
    pub tags: Vec<String>,
    pub author: Option<String>,
    pub homepage: Option<String>,
    pub version: Option<String>,
    pub trust: String,
    pub verified: bool,
    pub icon: Option<String>,
    pub install_spec_json: String,
    pub requirements_json: String,
    pub default_env_json: String,
    pub config_items: Vec<CatalogConfigItem>,
}

/// A catalog source.
#[derive(Debug, PartialEq, Eq)]
pub struct CatalogSourceView {
    pub id: String,
    pub display_name: String,
    pub kind: String,
    pub url: String,
    pub api_key_env: Option<String>,
    pub priority: u32,
    pub default_trust: String,
    pub enabled: bool,
    pub cache_ttl_seconds: Option<u64>,
    pub last_error: Option<String>,
}

/// A tool offered by an MCP server.
#[derive(Debug, PartialEq, Eq)]
pub struct McpToolEntry {
    pub server_id: String,
    pub name: String,
    pub description: Option<String>,
    pub input_schema: Option<String>,
    pub disabled: bool,
}

/// A resource offered by an MCP server.
#[derive(Debug, PartialEq, Eq)]
pub struct McpResourceEntry {
    pub server_id: String,
    pub uri: String,
    pub name: String,
    pub description: Option<String>,
    pub mime_type: Option<String>,
}

/// A prompt offered by an MCP server.
#[derive(Debug, PartialEq, Eq)]
pub struct McpPromptEntry {
    pub server_id: String,
    pub name: String,
    pub description: Option<String>,
    pub argument_count: usize,
}

/// Result of a connectivity test.
#[derive(Debug, PartialEq, Eq)]
pub struct McpConnectivityEntry {
    pub server_id: String,
    pub connected: bool,
    pub tool_count: Option<usize>,
    pub error: Option<String>,
}

/// Outcome of a catalog install as the runtime reports it.
#[derive(Debug, PartialEq, Eq)]
pub struct InstallOutcomeView {
    pub kind: String,
    pub server_id: Option<String>,
    pub started: Option<bool>,
    pub missing_runtimes: Vec<String>,
    pub missing_env_keys: Vec<String>,
}

/// What the overlay shows when it opens.
#[derive(Debug, PartialEq, Eq)]
pub struct McpOverlaySnapshot {
    pub runtime_servers: Vec<McpServerEntry>,
    pub settings: Vec<McpServerSettingsView>,
    pub installed: Vec<InstalledEntry>,
    pub catalog: Vec<ServerEntry>,
    pub sources: Vec<CatalogSourceView>,
}

/// Tabs of the overlay, in order.
#[derive(Debug, Clone, Copy, PartialEq, Eq, Structural)]
pub enum McpOverlayTab {
    Runtime,
    Settings,
    Installed,
    Catalog,
    Sources,
    Tools,
    Resources,
    Prompts,
}

/// Position of a tab in the tab bar.
pub open spec fn tab_index(t: McpOverlayTab) -> int {
    match t {
        McpOverlayTab::Runtime => 0,
        McpOverlayTab::Settings => 1,
        McpOverlayTab::Installed => 2,
        McpOverlayTab::Catalog => 3,
        McpOverlayTab::Sources => 4,
        McpOverlayTab::Tools => 5,
        McpOverlayTab::Resources => 6,
        McpOverlayTab::Prompts => 7,
    }
}

impl McpOverlayTab {
    /// The tab to the right, wrapping to the first.
    pub fn next(self) -> (r: McpOverlayTab)
        ensures
            tab_index(r) == (tab_index(self) + 1) % 8,
    {
        match self {
            McpOverlayTab::Runtime => McpOverlayTab::Settings,
            McpOverlayTab::Settings => McpOverlayTab::Installed,
            McpOverlayTab::Installed => McpOverlayTab::Catalog,
            McpOverlayTab::Catalog => McpOverlayTab::Sources,
            McpOverlayTab::Sources => McpOverlayTab::Tools,
            McpOverlayTab::Tools => McpOverlayTab::Resources,
            McpOverlayTab::Resources => McpOverlayTab::Prompts,
            McpOverlayTab::Prompts => McpOverlayTab::Runtime,
        }
    }

    /// The tab to the left, wrapping to the last.
    pub fn previous(self) -> (r: McpOverlayTab)
        ensures
            tab_index(r) == (tab_index(self) + 7) % 8,
    {
        match self {
            McpOverlayTab::Runtime => McpOverlayTab::Prompts,
            McpOverlayTab::Settings => McpOverlayTab::Runtime,
            McpOverlayTab::Installed => McpOverlayTab::Settings,
            McpOverlayTab::Catalog => McpOverlayTab::Installed,
            McpOverlayTab::Sources => McpOverlayTab::Catalog,
            McpOverlayTab::Tools => McpOverlayTab::Sources,
            McpOverlayTab::Resources => McpOverlayTab::Tools,
            McpOverlayTab::Prompts => McpOverlayTab::Resources,
        }
    }

    /// Title of the tab.
    pub fn label(self) -> (r: &'static str)
        ensures
            r@ == match self {
                McpOverlayTab::Runtime => "Runtime"@,
                McpOverlayTab::Settings => "Settings"@,
                McpOverlayTab::Installed => "Installed"@,
                McpOverlayTab::Catalog => "Catalog"@,
                McpOverlayTab::Sources => "Sources"@,
                McpOverlayTab::Tools => "Tools"@,
                McpOverlayTab::Resources => "Resources"@,
                McpOverlayTab::Prompts => "Prompts"@,
            },
    {
        match self {
            McpOverlayTab::Runtime => "Runtime",
            McpOverlayTab::Settings => "Settings",
            McpOverlayTab::Installed => "Installed",
            McpOverlayTab::Catalog => "Catalog",
            McpOverlayTab::Sources => "Sources",
            McpOverlayTab::Tools => "Tools",
            McpOverlayTab::Resources => "Resources",
            McpOverlayTab::Prompts => "Prompts",
        }
    }
}

/// Tab-bar positions are distinct, so a tab is known by its position.
pub proof fn law_tab_index_injective(a: McpOverlayTab, b: McpOverlayTab)
    ensures
        tab_index(a) == tab_index(b) ==> a == b,
        0 <= tab_index(a) < 8,
{
}

/// Health of a server as last checked.
#[derive(Debug, PartialEq, Eq)]
pub struct McpHealthState {
    pub healthy: bool,
    pub tool_count: usize,
    pub error: Option<String>,
}

/// Trust filter of the catalog.
#[derive(Debug, Clone, Copy, PartialEq, Eq, Structural)]
pub enum CatalogTrustFilter {
    All,
    Community,
    Verified,
}

/// The lowest trust rank that the filter lets through.
pub open spec fn min_rank_spec(f: CatalogTrustFilter) -> Option<u8> {
    match f {
        CatalogTrustFilter::All => None,
        CatalogTrustFilter::Community => Some(1u8),
        CatalogTrustFilter::Verified => Some(2u8),
    }
}

impl CatalogTrustFilter {
    /// The next filter: all, community and up, verified only, then all.
    pub fn next(self) -> (r: CatalogTrustFilter)
        ensures
            r == match self {
                CatalogTrustFilter::All => CatalogTrustFilter::Community,
                CatalogTrustFilter::Community => CatalogTrustFilter::Verified,
                CatalogTrustFilter::Verified => CatalogTrustFilter::All,
            },
    {
        match self {
            CatalogTrustFilter::All => CatalogTrustFilter::Community,
            CatalogTrustFilter::Community => CatalogTrustFilter::Verified,
            CatalogTrustFilter::Verified => CatalogTrustFilter::All,
        }
    }

    /// The lowest trust rank let through.
    pub fn min_rank(self) -> (r: Option<u8>)
        ensures
            r == min_rank_spec(self),
    {
        match self {
            CatalogTrustFilter::All => None,
            CatalogTrustFilter::Community => Some(1),
            CatalogTrustFilter::Verified => Some(2),
        }
    }

    /// Label shown in the catalog header.
    pub fn label(self) -> (r: &'static str)
        ensures
            r@ == match self {
                CatalogTrustFilter::All => "all"@,
                CatalogTrustFilter::Community => "community+"@,
                CatalogTrustFilter::Verified => "verified"@,
            },
    {
        match self {
            CatalogTrustFilter::All => "all",
            CatalogTrustFilter::Community => "community+",
            CatalogTrustFilter::Verified => "verified",
        }
    }
}

/// Cycling the trust filter three times comes back to where it started.
pub proof fn law_trust_filter_cycle(f: CatalogTrustFilter)
    ensures
        ({
            let n = |g: CatalogTrustFilter| match g {
                CatalogTrustFilter::All => CatalogTrustFilter::Community,
                CatalogTrustFilter::Community => CatalogTrustFilter::Verified,
                CatalogTrustFilter::Verified => CatalogTrustFilter::All,
            };
            n(n(n(f))) == f
        }),
{
}

/// What the overlay is doing.
#[derive(Debug, Clone, Copy, PartialEq, Eq, Structural)]
pub enum McpOverlayMode {
    List,
    ServerEditor,
    SourceEditor,
    CatalogFilter,
    CatalogInstallConfig,
}

/// Status of a catalog install, shown in the catalog list.
#[derive(Debug, PartialEq, Eq)]
pub enum CatalogInstallStatus {
    Installing,
    Installed { server_id: String, started: bool },
    AlreadyInstalled { server_id: String },
    RuntimeMissing { missing_runtimes: Vec<String> },
    MissingEnv { missing_env_keys: Vec<String> },
    Failed { message: String },
}

/// Rank of a trust label: verified 2, community 1, anything else 0.
pub open spec fn trust_rank_spec(value: Seq<char>) -> u8 {
    if value == "verified"@ {
        2
    } else if value == "community"@ {
        1
    } else {
        0
    }
}

/// Rank of a trust label.
pub fn trust_rank(value: &str) -> (r: u8)
    ensures
        r == trust_rank_spec(value@),
{
    if str_eq(value, "verified") {
        2
    } else if str_eq(value, "community") {
        1
    } else {
        0
    }
}

/// Two texts joined by a newline: the key of a cached resource preview or of
/// a catalog install status.
pub open spec fn pair_key(a: Seq<char>, b: Seq<char>) -> Seq<char> {
    a + "\n"@ + b
}

/// Key of a resource preview: server and URI.
pub fn resource_preview_key(server_id: &str, uri: &str) -> (r: String)
    ensures
        r@ == pair_key(server_id@, uri@),
{
    concat(concat(server_id, "\n").as_str(), uri)
}

/// Key of a catalog install status: source and catalog id.
pub fn catalog_install_key(source: &str, catalog_id: &str) -> (r: String)
    ensures
        r@ == pair_key(source@, catalog_id@),
{
    concat(concat(source, "\n").as_str(), catalog_id)
}

/// A copy of an optional text.
pub fn copy_opt(s: &Option<String>) -> (r: Option<String>)
    ensures
        r is None <==> s is None,
        r matches Some(t) ==> t@ == s.unwrap()@,
{
    match s {
        Some(t) => Some(copy_str(t.as_str())),
        None => None,
    }
}

} // verus!
