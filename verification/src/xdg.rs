//! Where the player keeps its files, after the XDG base directory rules.
//!
//! - configuration: `$XDG_CONFIG_HOME/vmedia/` (else `$HOME/.config/vmedia/`)
//! - data: `$XDG_DATA_HOME/vmedia/` (else `$HOME/.local/share/vmedia/`)
//! - cache: `$XDG_CACHE_HOME/vmedia/` (else `$HOME/.cache/vmedia/`)
//!
//! Without `HOME`, `/tmp` stands in for it.
use vstd::prelude::*;

use crate::path::{join, join_path};

verus! {

/// The player's directories.
#[derive(Debug)]
pub struct XdgPaths {
    pub config_dir: String,
    pub data_dir: String,
    pub cache_dir: String,
}

/// The home directory, or `/tmp` without one.
pub open spec fn home_or_tmp(home: Option<String>) -> Seq<char> {
    match home {
        Some(h) => h@,
        None => "/tmp"@,
    }
}

/// A base directory: the variable's value where it is set, else `fallback`
/// under the home directory.
pub open spec fn base_dir(var: Option<String>, home: Seq<char>, fallback: Seq<char>) -> Seq<char> {
    match var {
        Some(v) => v@,
        None => join(home, fallback),
    }
}

/// The base directory named by `var`, else `fallback` under `home`.
fn base_dir_of(var: Option<String>, home: &str, fallback: &str) -> (r: String)
    ensures
        r@ == base_dir(var, home@, fallback@),
{
    match var {
        Some(v) => v,
        None => join_path(home, fallback),
    }
}

impl XdgPaths {
    /// The directories for the given values of `HOME`, `XDG_CONFIG_HOME`,
    /// `XDG_DATA_HOME` and `XDG_CACHE_HOME` (none where a variable is unset).
    pub fn new(
        home: Option<String>,
        config_home: Option<String>,
        data_home: Option<String>,
        cache_home: Option<String>,
    ) -> (paths: Self)
        ensures
            paths.config_dir@ == join(base_dir(config_home, home_or_tmp(home), ".config"@), "vmedia"@),
            paths.data_dir@ == join(base_dir(data_home, home_or_tmp(home), ".local/share"@), "vmedia"@),
            paths.cache_dir@ == join(base_dir(cache_home, home_or_tmp(home), ".cache"@), "vmedia"@),
    {
        let home = match home {
            Some(h) => h,
            None => "/tmp".to_string(),
        };
        let config_base = base_dir_of(config_home, home.as_str(), ".config");
        let data_base = base_dir_of(data_home, home.as_str(), ".local/share");
        let cache_base = base_dir_of(cache_home, home.as_str(), ".cache");
        XdgPaths {
            config_dir: join_path(config_base.as_str(), "vmedia"),
            data_dir: join_path(data_base.as_str(), "vmedia"),
            cache_dir: join_path(cache_base.as_str(), "vmedia"),
        }
    }

    /// Where the media database lives.
    pub fn database_path(&self) -> (p: String)
        ensures
            p@ == join(self.data_dir@, "vmedia.db"@),
    {
        join_path(self.data_dir.as_str(), "vmedia.db")
    }

    /// Where screenshots go.
    pub fn screenshot_dir(&self) -> (p: String)
        ensures
            p@ == join(self.cache_dir@, "screenshots"@),
    {
        join_path(self.cache_dir.as_str(), "screenshots")
    }

    /// Where poster images are cached.
    pub fn poster_cache_dir(&self) -> (p: String)
        ensures
            p@ == join(self.cache_dir@, "posters"@),
    {
        join_path(self.cache_dir.as_str(), "posters")
    }
}

} // verus!
