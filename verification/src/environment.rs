//! A snapshot of what the process environment says about directories.

use crate::category::XdgDir;
use vstd::prelude::*;

verus! {

/// The family of conventions that a resolution follows.
///
/// The platform decides which variables and which fallbacks are looked at.
/// It does not decide how two paths are joined: see [`crate::path::joined`].
#[derive(Clone, Copy, Debug, PartialEq, Eq, Structural)]
pub enum Platform {
    /// The XDG base directories, each with its fallback under the home
    /// directory.
    Unix,
    /// Everything under `APPDATA`.
    Windows,
}

/// The name of the variable that holds the base directory on Windows.
pub open spec fn spec_appdata_key() -> Seq<char> {
    "APPDATA"@
}

/// The name of the variable that holds the base directory on Windows.
pub fn appdata_key() -> (key: &'static str)
    ensures
        key@ == spec_appdata_key(),
{
    "APPDATA"
}

impl Platform {
    /// The names of the variables that have a say on this platform: the
    /// three of the categories on Unix, `APPDATA` alone on Windows.
    pub open spec fn spec_variables(self) -> Seq<Seq<char>> {
        match self {
            Platform::Unix => seq![
                XdgDir::Data.spec_env_key(),
                XdgDir::Config.spec_env_key(),
                XdgDir::Cache.spec_env_key(),
            ],
            Platform::Windows => seq![spec_appdata_key()],
        }
    }

    /// The names of the variables that have a say on this platform. Whoever
    /// fills an [`Environment`] need not read any other.
    pub fn variables(self) -> (keys: Vec<&'static str>)
        ensures
            keys@.len() == self.spec_variables().len(),
            forall|i: int| 0 <= i < keys@.len() ==> (#[trigger] keys@[i])@ == self.spec_variables()[i],
    {
        match self {
            Platform::Unix => vec![
                XdgDir::Data.env_key(),
                XdgDir::Config.env_key(),
                XdgDir::Cache.env_key(),
            ],
            Platform::Windows => vec![appdata_key()],
        }
    }
}

/// What an [`Environment`] stands for: the platform, the variables that are
/// set with their values, the home directory if there is one, and the root of
/// the temporary directories.
pub struct EnvironmentView {
    pub platform: Platform,
    pub variables: Map<Seq<char>, Seq<char>>,
    pub home_dir: Option<Seq<char>>,
    pub temp_root: Seq<char>,
}

/// The value that `variables` gives to `key`, if it gives one.
pub open spec fn lookup(variables: Map<Seq<char>, Seq<char>>, key: Seq<char>) -> Option<
    Seq<char>,
> {
    if variables.contains_key(key) {
        Some(variables[key])
    } else {
        None
    }
}

impl EnvironmentView {
    /// The value of the variable `key`, if it is set.
    pub open spec fn var(self, key: Seq<char>) -> Option<Seq<char>> {
        lookup(self.variables, key)
    }

    /// The same environment with `key` set to `value`.
    pub open spec fn with_var(self, key: Seq<char>, value: Seq<char>) -> EnvironmentView {
        EnvironmentView { variables: self.variables.insert(key, value), ..self }
    }

    /// The same environment with `key` unset.
    pub open spec fn without_var(self, key: Seq<char>) -> EnvironmentView {
        EnvironmentView { variables: self.variables.remove(key), ..self }
    }

    /// The same environment with another home directory, or none.
    pub open spec fn with_home_dir(self, home_dir: Option<Seq<char>>) -> EnvironmentView {
        EnvironmentView { home_dir, ..self }
    }
}

/// The state of the process environment at one moment, as far as directory
/// resolution depends on it.
///
/// The library never reads the process environment itself. Its caller fills
/// an `Environment` and hands it in, so that a resolution depends on nothing
/// but its arguments.
#[derive(Debug)]
pub struct Environment {
    platform: Platform,
    variables: Vec<(String, String)>,
    home_dir: Option<String>,
    temp_root: String,
}

/// The variables that a list of entries sets: each entry binds its name to its
/// value, a later entry overriding an earlier one of the same name.
spec fn bindings(entries: Seq<(String, String)>) -> Map<Seq<char>, Seq<char>>
    decreases entries.len(),
{
    if entries.len() == 0 {
        Map::empty()
    } else {
        bindings(entries.drop_last()).insert(entries.last().0@, entries.last().1@)
    }
}

proof fn lemma_bindings_push(entries: Seq<(String, String)>, entry: (String, String))
    ensures
        bindings(entries.push(entry)) == bindings(entries).insert(entry.0@, entry.1@),
{
    assert(entries.push(entry).drop_last() =~= entries);
}

proof fn lemma_bindings_take(entries: Seq<(String, String)>, i: int)
    requires
        0 <= i < entries.len(),
    ensures
        bindings(entries.take(i + 1)) == bindings(entries.take(i)).insert(
            entries[i].0@,
            entries[i].1@,
        ),
{
    assert(entries.take(i + 1).drop_last() =~= entries.take(i));
}

impl View for Environment {
    type V = EnvironmentView;

    closed spec fn view(&self) -> EnvironmentView {
        EnvironmentView {
            platform: self.platform,
            variables: bindings(self.variables@),
            home_dir: self.home_dir.deep_view(),
            temp_root: self.temp_root@,
        }
    }
}

impl Environment {
    /// An environment in which no variable is set and no home directory is
    /// known.
    pub fn new(platform: Platform, temp_root: &str) -> (env: Environment)
        ensures
            env@ == (EnvironmentView {
                platform,
                variables: Map::empty(),
                home_dir: None,
                temp_root: temp_root@,
            }),
    {
        Environment {
            platform,
            variables: Vec::new(),
            home_dir: None,
            temp_root: temp_root.to_owned(),
        }
    }

    /// The value of the variable `key`, if it is set.
    pub fn var(&self, key: &str) -> (value: Option<&String>)
        ensures
            value.deep_view() == self@.var(key@),
    {
        let name = key.to_owned();
        let mut i: usize = self.variables.len();
        assert(self.variables@.take(i as int) =~= self.variables@);
        while i > 0
            invariant
                i <= self.variables@.len(),
                name@ == key@,
                self@.var(key@) == lookup(bindings(self.variables@.take(i as int)), key@),
            decreases i,
        {
            i = i - 1;
            proof {
                lemma_bindings_take(self.variables@, i as int);
            }
            if self.variables[i].0 == name {
                return Some(&self.variables[i].1);
            }
        }
        None
    }

    /// Unsets the variable `key`.
    pub fn remove_var(&mut self, key: &str)
        ensures
            final(self)@ == old(self)@.without_var(key@),
    {
        let name = key.to_owned();
        let mut kept: Vec<(String, String)> = Vec::new();
        let mut i: usize = 0;
        while i < self.variables.len()
            invariant
                i <= self.variables@.len(),
                name@ == key@,
                *self == *old(self),
                bindings(kept@) =~= bindings(self.variables@.take(i as int)).remove(key@),
            decreases self.variables@.len() - i,
        {
            proof {
                lemma_bindings_take(self.variables@, i as int);
            }
            if !(self.variables[i].0 == name) {
                let entry = (self.variables[i].0.clone(), self.variables[i].1.clone());
                proof {
                    lemma_bindings_push(kept@, entry);
                }
                kept.push(entry);
            }
            i = i + 1;
        }
        assert(self.variables@.take(i as int) =~= self.variables@);
        self.variables = kept;
    }

    /// Sets the variable `key` to `value`, whether or not it was set before.
    pub fn set_var(&mut self, key: &str, value: &str)
        ensures
            final(self)@ == old(self)@.with_var(key@, value@),
    {
        self.remove_var(key);
        let entry = (key.to_owned(), value.to_owned());
        proof {
            lemma_bindings_push(self.variables@, entry);
        }
        self.variables.push(entry);
        assert(self@.variables =~= old(self)@.with_var(key@, value@).variables);
    }

    /// Sets the home directory, or records that there is none.
    pub fn set_home_dir(&mut self, home_dir: Option<&str>)
        ensures
            final(self)@ == old(self)@.with_home_dir(home_dir.deep_view()),
    {
        self.home_dir = match home_dir {
            Some(dir) => Some(dir.to_owned()),
            None => None,
        };
    }

    /// The family of conventions to follow.
    pub fn platform(&self) -> (platform: Platform)
        ensures
            platform == self@.platform,
    {
        self.platform
    }

    /// The home directory, if there is one.
    pub fn home_dir(&self) -> (home_dir: Option<&String>)
        ensures
            home_dir.deep_view() == self@.home_dir,
    {
        self.home_dir.as_ref()
    }

    /// The root of the temporary directories.
    pub fn temp_root(&self) -> (temp_root: &str)
        ensures
            temp_root@ == self@.temp_root,
    {
        self.temp_root.as_str()
    }
}

impl Clone for Environment {
    /// A copy that holds the same as `self`.
    fn clone(&self) -> (copy: Environment)
        ensures
            copy@ == self@,
    {
        let mut variables: Vec<(String, String)> = Vec::new();
        let mut i: usize = 0;
        while i < self.variables.len()
            invariant
                i <= self.variables@.len(),
                variables@ =~= self.variables@.take(i as int),
            decreases self.variables@.len() - i,
        {
            variables.push((self.variables[i].0.clone(), self.variables[i].1.clone()));
            i = i + 1;
        }
        assert(self.variables@.take(i as int) =~= self.variables@);
        Environment {
            platform: self.platform,
            variables,
            home_dir: match &self.home_dir {
                Some(dir) => Some(dir.clone()),
                None => None,
            },
            temp_root: self.temp_root.clone(),
        }
    }
}

/// Keeps the value of a successful result and drops the error of a failed one.
pub fn result_to_option<T, E>(result: Result<T, E>) -> (option: Option<T>)
    ensures
        option == match result {
            Ok(value) => Some(value),
            Err(_) => None::<T>,
        },
{
    match result {
        Ok(v) => Some(v),
        Err(_) => None,
    }
}

} // verus!
