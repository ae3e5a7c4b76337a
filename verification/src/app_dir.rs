//! Resolving the directories of one application.

use crate::category::XdgDir;
use crate::environment::{appdata_key, spec_appdata_key, Environment, EnvironmentView, Platform};
use crate::path::{join, joined};
use vstd::prelude::*;

verus! {

impl EnvironmentView {
    /// The base directory of the category `xdg`, before any application name
    /// is adjoined.
    ///
    /// On Unix it is the value of the variable of that category where it is
    /// set, empty or not, and else the conventional directory under the home
    /// directory. On Windows it is the value of `APPDATA` for every category,
    /// and the variables of the categories are not looked at.
    pub open spec fn base_dir(self, xdg: XdgDir) -> Option<Seq<char>> {
        match self.platform {
            Platform::Unix => match self.var(xdg.spec_env_key()) {
                Some(dir) => Some(dir),
                None => match self.home_dir {
                    Some(home) => Some(joined(home, xdg.spec_home_subdir())),
                    None => None,
                },
            },
            Platform::Windows => self.var(spec_appdata_key()),
        }
    }

    /// The directory of the category `xdg` for the application `name`: the
    /// base directory of that category, where there is one, with the name
    /// adjoined.
    pub open spec fn standard_dir(self, name: Seq<char>, xdg: XdgDir) -> Option<Seq<char>> {
        match self.base_dir(xdg) {
            Some(base) => Some(joined(base, name)),
            None => None,
        }
    }

    /// The per-user data directory of the application `name`: on Unix the
    /// name with a dot before it, directly under the home directory; on
    /// Windows the name under `APPDATA`.
    pub open spec fn user_data_dir(self, name: Seq<char>) -> Option<Seq<char>> {
        match self.platform {
            Platform::Unix => match self.home_dir {
                Some(home) => Some(joined(home, seq!['.'] + name)),
                None => None,
            },
            Platform::Windows => match self.var(spec_appdata_key()) {
                Some(base) => Some(joined(base, name)),
                None => None,
            },
        }
    }

    /// The temporary directory of the application `name`: the name under the
    /// root of the temporary directories.
    pub open spec fn temp_dir(self, name: Seq<char>) -> Seq<char> {
        joined(self.temp_root, name)
    }
}

impl Environment {
    /// The base directory of the category `xdg`, before any application name
    /// is adjoined; `None` where neither a variable nor the home directory
    /// gives one.
    pub fn base_dir(&self, xdg: XdgDir) -> (base: Option<String>)
        ensures
            base.deep_view() == self@.base_dir(xdg),
    {
        match self.platform() {
            Platform::Unix => match self.var(xdg.env_key()) {
                Some(dir) => Some(dir.clone()),
                None => match self.home_dir() {
                    Some(home) => Some(join(home.as_str(), xdg.home_subdir())),
                    None => None,
                },
            },
            Platform::Windows => match self.var(appdata_key()) {
                Some(dir) => Some(dir.clone()),
                None => None,
            },
        }
    }
}

/// An application, known by its name, whose directories are to be found.
#[derive(Debug, Eq, PartialEq)]
pub struct AppDir {
    app_name: String,
}

impl View for AppDir {
    type V = Seq<char>;

    /// The application's name.
    closed spec fn view(&self) -> Seq<char> {
        self.app_name@
    }
}

impl Clone for AppDir {
    /// A copy of the same name.
    fn clone(&self) -> (copy: AppDir)
        ensures
            copy@ == self@,
    {
        AppDir { app_name: self.app_name.clone() }
    }
}

impl AppDir {
    /// The application named `app_name`. Any name is taken as it is, an empty
    /// one too.
    pub fn new(app_name: &str) -> (app: AppDir)
        ensures
            app@ == app_name@,
    {
        AppDir { app_name: app_name.to_owned() }
    }

    /// The directory of the category `xdg` for this application in `env`, or
    /// `None` where `env` has no base directory of that category.
    pub fn xdg_dir(&self, env: &Environment, xdg: XdgDir) -> (dir: Option<String>)
        ensures
            dir.deep_view() == env@.standard_dir(self@, xdg),
    {
        match env.base_dir(xdg) {
            Some(base) => Some(join(base.as_str(), self.app_name.as_str())),
            None => None,
        }
    }

    /// The per-user data directory of this application in `env`, or `None`
    /// where `env` has no directory to put it under.
    pub fn user_data_dir(&self, env: &Environment) -> (dir: Option<String>)
        ensures
            dir.deep_view() == env@.user_data_dir(self@),
    {
        match env.platform() {
            Platform::Unix => match env.home_dir() {
                Some(home) => {
                    let hidden = ".".to_owned().concat(self.app_name.as_str());
                    proof {
                        reveal_strlit(".");
                        assert("."@ =~= seq!['.']);
                    }
                    Some(join(home.as_str(), hidden.as_str()))
                },
                None => None,
            },
            Platform::Windows => match env.var(appdata_key()) {
                Some(base) => Some(join(base.as_str(), self.app_name.as_str())),
                None => None,
            },
        }
    }

    /// The temporary directory of this application in `env`.
    pub fn temp_dir(&self, env: &Environment) -> (dir: String)
        ensures
            dir@ == env@.temp_dir(self@),
    {
        join(env.temp_root(), self.app_name.as_str())
    }

    /// The application's name, as it was given.
    pub fn to_string(&self) -> (name: String)
        ensures
            name@ == self@,
    {
        self.app_name.clone()
    }
}

} // verus!
