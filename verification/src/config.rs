//! Configuration: the settings kept in the user's configuration directory
//! and where the configuration file lives.
//!
//! Reading and writing the file is the application's work.

use vstd::prelude::*;
use crate::paths::{join, path_join};
use crate::text::owned;

verus! {

/// API credentials
#[derive(Debug, Clone)]
pub struct Credentials {
    /// AcoustID API key for fingerprint lookups
    pub acoustid_api_key: Option<String>,
}

impl Default for Credentials {
    fn default() -> (r: Credentials)
        ensures
            r.acoustid_api_key is None,
    {
        Credentials { acoustid_api_key: None }
    }
}

/// Appearance/theme settings
#[derive(Debug, Clone)]
pub struct AppearanceConfig {
    /// Theme name (only "dark" supported currently)
    pub theme: String,
    /// Whether the sidebar is collapsed
    pub sidebar_collapsed: bool,
}

impl Default for AppearanceConfig {
    fn default() -> (r: AppearanceConfig)
        ensures
            r.theme@ == "dark"@,
            !r.sidebar_collapsed,
    {
        AppearanceConfig { theme: owned("dark"), sidebar_collapsed: false }
    }
}

/// Library management settings
#[derive(Debug, Clone)]
pub struct LibraryConfig {
    /// Library scan paths
    pub paths: Vec<String>,
    /// Last scanned path (for quick rescan)
    pub last_scan_path: Option<String>,
    /// Whether to watch for file changes
    pub watch_for_changes: bool,
    /// Auto-queue tracks from same album when starting playback
    pub auto_queue: bool,
}

impl Default for LibraryConfig {
    fn default() -> (r: LibraryConfig)
        ensures
            r.paths@.len() == 0,
            r.last_scan_path is None,
            r.watch_for_changes,
            r.auto_queue,
    {
        LibraryConfig { paths: Vec::new(), last_scan_path: None, watch_for_changes: true, auto_queue: true }
    }
}

/// `dirs::config_dir`: the user's configuration directory, given as a
/// string.
///
/// Trusted, with nothing claimed: the answer depends on the platform and
/// the environment.
#[verifier::external_body]
fn user_config_dir() -> Option<String> {
    dirs::config_dir().map(|d| d.to_string_lossy().to_string())
}

/// The application's directory inside a configuration directory.
pub open spec fn app_dir_in(base: Seq<char>) -> Seq<char> {
    path_join(base, "music-minder"@)
}

/// The configuration file inside a configuration directory.
pub open spec fn config_file_in(base: Seq<char>) -> Seq<char> {
    path_join(app_dir_in(base), "config.toml"@)
}

/// The application's directory inside a given configuration directory.
pub fn config_dir_in(base: &str) -> (r: String)
    ensures
        r@ == app_dir_in(base@),
{
    join(base, "music-minder")
}

/// The configuration file inside a given configuration directory.
pub fn config_path_in(base: &str) -> (r: String)
    ensures
        r@ == config_file_in(base@),
{
    let dir = config_dir_in(base);
    join(dir.as_str(), "config.toml")
}

/// Get the config directory path
pub fn config_dir() -> (r: Option<String>)
    ensures
        r matches Some(d) ==> exists|b: Seq<char>| d@ == app_dir_in(b),
{
    match user_config_dir() {
        Some(base) => {
            let d = config_dir_in(base.as_str());
            assert(d@ == app_dir_in(base@));
            Some(d)
        },
        None => None,
    }
}

/// Get the full path to the config file
pub fn config_path() -> (r: Option<String>)
    ensures
        r matches Some(p) ==> exists|b: Seq<char>| p@ == config_file_in(b),
{
    match user_config_dir() {
        Some(base) => {
            let p = config_path_in(base.as_str());
            assert(p@ == config_file_in(base@));
            Some(p)
        },
        None => None,
    }
}

}
