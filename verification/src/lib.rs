//! Per-application standard directories.
//!
//! Given an application name and a snapshot of the process environment, the
//! library says where that application keeps its data, configuration, cache,
//! per-user and temporary files: the XDG base directories on Unix-like
//! systems, `APPDATA` on Windows. It only computes paths: it reads no
//! variable and touches no file itself, so every result is a function of the
//! values handed in.
//!
//! ```
//! use s_app_dir::{AppDir, Environment, Platform, XdgDir};
//!
//! let mut env = Environment::new(Platform::Unix, "/tmp");
//! env.set_home_dir(Some("/home/alice"));
//! let app = AppDir::new("foo-bar-app");
//!
//! let config = app.xdg_dir(&env, XdgDir::Config);
//! assert_eq!(config, Some("/home/alice/.config/foo-bar-app".to_string()));
//!
//! env.set_var("XDG_CONFIG_HOME", "/etc/xdg");
//! let config = app.xdg_dir(&env, XdgDir::Config);
//! assert_eq!(config, Some("/etc/xdg/foo-bar-app".to_string()));
//! ```

pub mod app_dir;
pub mod category;
pub mod environment;
pub mod laws;
pub mod path;

pub use app_dir::AppDir;
pub use category::XdgDir;
pub use environment::{appdata_key, result_to_option, Environment, Platform};
