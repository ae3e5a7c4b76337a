//! The categories of base directory.

use vstd::prelude::*;

verus! {

/// The category of a standard directory: where an application keeps its
/// data, its configuration or its cache.
#[derive(Clone, Copy, Debug, PartialEq, Eq, Structural)]
pub enum XdgDir {
    /// Data files: `XDG_DATA_HOME`, or `.local/share` under the home
    /// directory.
    Data,
    /// Configuration files: `XDG_CONFIG_HOME`, or `.config` under the home
    /// directory.
    Config,
    /// Cached files: `XDG_CACHE_HOME`, or `.cache` under the home directory.
    Cache,
}

impl XdgDir {
    /// The name of the environment variable that overrides this base directory.
    pub open spec fn spec_env_key(self) -> Seq<char> {
        match self {
            XdgDir::Data => "XDG_DATA_HOME"@,
            XdgDir::Config => "XDG_CONFIG_HOME"@,
            XdgDir::Cache => "XDG_CACHE_HOME"@,
        }
    }

    /// The conventional place of this base directory, relative to the home
    /// directory.
    pub open spec fn spec_home_subdir(self) -> Seq<char> {
        match self {
            XdgDir::Data => ".local/share"@,
            XdgDir::Config => ".config"@,
            XdgDir::Cache => ".cache"@,
        }
    }

    /// The name of the environment variable that overrides this base directory.
    pub fn env_key(self) -> (key: &'static str)
        ensures
            key@ == self.spec_env_key(),
    {
        match self {
            XdgDir::Data => "XDG_DATA_HOME",
            XdgDir::Config => "XDG_CONFIG_HOME",
            XdgDir::Cache => "XDG_CACHE_HOME",
        }
    }

    /// The conventional place of this base directory, relative to the home
    /// directory.
    pub fn home_subdir(self) -> (subdir: &'static str)
        ensures
            subdir@ == self.spec_home_subdir(),
    {
        match self {
            XdgDir::Data => ".local/share",
            XdgDir::Config => ".config",
            XdgDir::Cache => ".cache",
        }
    }
}

} // verus!
