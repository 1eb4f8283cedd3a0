//! Data of the plugin overlay: installed plugins, catalog entries and
//! marketplace sources as the overlay receives them, and its tab and mode.

use vstd::prelude::*;

verus! {

/// Where a setting comes from.
#[derive(Debug, Clone, Copy, PartialEq, Eq, Structural)]
pub enum ConfigScope {
    Builtin,
    User,
    Project,
}

impl ConfigScope {
    /// Name of the scope.
    pub fn label(self) -> (r: &'static str)
        ensures
            r@ == match self {
                ConfigScope::Builtin => "builtin"@,
                ConfigScope::User => "user"@,
                ConfigScope::Project => "project"@,
            },
    {
        match self {
            ConfigScope::Builtin => "builtin",
            ConfigScope::User => "user",
            ConfigScope::Project => "project",
        }
    }
}

/// What an installed plugin provides.
#[derive(Debug, PartialEq, Eq)]
pub struct PluginComponentInventoryView {
    pub skill_count: usize,
    pub skill_names: Vec<String>,
    pub mcp_server_count: usize,
    pub app_count: usize,
    pub agent_count: usize,
    pub hook_count: usize,
}

/// An installed plugin.
#[derive(Debug, PartialEq, Eq)]
pub struct PluginSettingsView {
    pub settings_id: String,
    pub id: String,
    pub name: String,
    pub description: String,
    pub version: Option<String>,
    pub scope: ConfigScope,
    pub path: String,
    pub enabled: bool,
    pub install_source: Option<String>,
    pub marketplace: Option<String>,
    pub effective: bool,
    pub shadowed_by: Option<String>,
    pub valid: bool,
    pub validation_error: Option<String>,
    pub inventory: PluginComponentInventoryView,
    pub manifest_kind: String,
}

/// A plugin offered by a marketplace.
#[derive(Debug, PartialEq, Eq)]
pub struct PluginCatalogEntry {
    pub marketplace_id: String,
    pub name: String,
    pub description: String,
    pub version: Option<String>,
    pub source: String,
}

/// A marketplace source.
#[derive(Debug, PartialEq, Eq)]
pub struct PluginMarketplaceSourceView {
    pub id: String,
    pub display_name: String,
    pub source: String,
    pub enabled: bool,
    pub builtin: bool,
}

/// Where a plugin is installed.
#[derive(Debug, Clone, Copy, PartialEq, Eq, Structural)]
pub enum PluginInstallTarget {
    User,
    Project,
}

/// A plugin install to run.
#[derive(Debug, PartialEq, Eq)]
pub struct InstallPluginRequest {
    pub marketplace_id: String,
    pub plugin_name: String,
    pub target: PluginInstallTarget,
}

/// What the overlay shows when it opens.
#[derive(Debug, PartialEq, Eq)]
pub struct PluginOverlaySnapshot {
    pub plugins: Vec<PluginSettingsView>,
    pub catalog: Vec<PluginCatalogEntry>,
    pub sources: Vec<PluginMarketplaceSourceView>,
    pub install_target: PluginInstallTarget,
}

/// The catalog filters to load the catalog with.
#[derive(Debug, PartialEq, Eq)]
pub struct PluginCatalogFilters {
    pub marketplace_id: Option<String>,
    pub keyword: Option<String>,
}

/// Tabs of the overlay, in order.
#[derive(Debug, Clone, Copy, PartialEq, Eq, Structural)]
pub enum PluginTab {
    Installed,
    Catalog,
    Sources,
}

impl PluginTab {
    /// The tab to the right, wrapping to the first.
    pub fn next(self) -> (r: PluginTab)
        ensures
            r == match self {
                PluginTab::Installed => PluginTab::Catalog,
                PluginTab::Catalog => PluginTab::Sources,
                PluginTab::Sources => PluginTab::Installed,
            },
    {
        match self {
            PluginTab::Installed => PluginTab::Catalog,
            PluginTab::Catalog => PluginTab::Sources,
            PluginTab::Sources => PluginTab::Installed,
        }
    }

    /// The tab to the left, wrapping to the last.
    pub fn previous(self) -> (r: PluginTab)
        ensures
            r == match self {
                PluginTab::Installed => PluginTab::Sources,
                PluginTab::Catalog => PluginTab::Installed,
                PluginTab::Sources => PluginTab::Catalog,
            },
    {
        match self {
            PluginTab::Installed => PluginTab::Sources,
            PluginTab::Catalog => PluginTab::Installed,
            PluginTab::Sources => PluginTab::Catalog,
        }
    }

    /// Title of the tab.
    pub fn label(self) -> (r: &'static str)
        ensures
            r@ == match self {
                PluginTab::Installed => "Installed"@,
                PluginTab::Catalog => "Catalog"@,
                PluginTab::Sources => "Sources"@,
            },
    {
        match self {
            PluginTab::Installed => "Installed",
            PluginTab::Catalog => "Catalog",
            PluginTab::Sources => "Sources",
        }
    }
}

/// What the overlay is doing.
#[derive(Debug, Clone, Copy, PartialEq, Eq, Structural)]
pub enum PluginOverlayMode {
    List,
    CatalogSearch,
}

} // verus!
