//! What holds of every resolution, whatever the application and the
//! environment.

use crate::app_dir::AppDir;
use crate::category::XdgDir;
use crate::environment::{spec_appdata_key, Environment, Platform};
use crate::path::joined;
use vstd::prelude::*;

verus! {

/// On Unix a variable that is set decides alone: where the variable of the
/// category `xdg` holds `value`, the directory of that category is `value`
/// with the application's name adjoined, whether a home directory is known or
/// not and whichever it is.
pub proof fn set_variable_decides(
    app: AppDir,
    env: Environment,
    xdg: XdgDir,
    value: Seq<char>,
    home_dir: Option<Seq<char>>,
)
    requires
        env@.platform == Platform::Unix,
        env@.var(xdg.spec_env_key()) == Some(value),
    ensures
        env@.standard_dir(app@, xdg) == Some(joined(value, app@)),
        env@.with_home_dir(home_dir).standard_dir(app@, xdg) == Some(joined(value, app@)),
{
}

/// On Unix, where the variable of a category is not set and the home
/// directory is `home`, the directory of that category lies under the home
/// directory: `.local/share` for data, `.config` for configuration and
/// `.cache` for the cache, each with the application's name adjoined.
pub proof fn unset_variable_falls_back_to_home(
    app: AppDir,
    env: Environment,
    xdg: XdgDir,
    home: Seq<char>,
)
    requires
        env@.platform == Platform::Unix,
        env@.var(xdg.spec_env_key()) is None,
        env@.home_dir == Some(home),
    ensures
        xdg == XdgDir::Data ==> env@.standard_dir(app@, xdg) == Some(
            joined(joined(home, ".local/share"@), app@),
        ),
        xdg == XdgDir::Config ==> env@.standard_dir(app@, xdg) == Some(
            joined(joined(home, ".config"@), app@),
        ),
        xdg == XdgDir::Cache ==> env@.standard_dir(app@, xdg) == Some(
            joined(joined(home, ".cache"@), app@),
        ),
{
}

/// On Unix, where neither the variable of a category is set nor a home
/// directory known, there is no directory of that category.
pub proof fn nothing_known_gives_nothing(app: AppDir, env: Environment, xdg: XdgDir)
    requires
        env@.platform == Platform::Unix,
        env@.var(xdg.spec_env_key()) is None,
        env@.home_dir is None,
    ensures
        env@.standard_dir(app@, xdg) is None,
{
}

/// On Windows the three categories share one directory: where `APPDATA` holds
/// `appdata`, the directory of every category is `appdata` with the
/// application's name adjoined, whatever the variables of the categories and
/// the home directory are; where `APPDATA` is not set, there is none.
pub proof fn windows_categories_share_appdata(app: AppDir, env: Environment, xdg: XdgDir)
    requires
        env@.platform == Platform::Windows,
    ensures
        env@.standard_dir(app@, xdg) == match env@.var("APPDATA"@) {
            Some(appdata) => Some(joined(appdata, app@)),
            None => None,
        },
        env@.standard_dir(app@, xdg) == env@.standard_dir(app@, XdgDir::Data),
{
}

/// The temporary directory is always there: the root of the temporary
/// directories with the application's name adjoined, on either platform and
/// whatever else the environment holds.
pub proof fn temp_dir_is_under_temp_root(app: AppDir, env: Environment)
    ensures
        env@.temp_dir(app@) == joined(env@.temp_root, app@),
{
}

/// On Unix the per-user data directory is the application's name with a dot
/// before it, adjoined to the home directory, and there is none where no home
/// directory is known. No variable has a say in it.
pub proof fn unix_user_data_dir_is_hidden_under_home(app: AppDir, env: Environment)
    requires
        env@.platform == Platform::Unix,
    ensures
        env@.user_data_dir(app@) == match env@.home_dir {
            Some(home) => Some(joined(home, seq!['.'] + app@)),
            None => None,
        },
{
}

/// On Windows the per-user data directory is the application's name adjoined
/// to the value of `APPDATA`, and there is none where `APPDATA` is not set.
pub proof fn windows_user_data_dir_is_under_appdata(app: AppDir, env: Environment)
    requires
        env@.platform == Platform::Windows,
    ensures
        env@.user_data_dir(app@) == match env@.var("APPDATA"@) {
            Some(appdata) => Some(joined(appdata, app@)),
            None => None,
        },
{
}

/// Asking again gives the same answer: two applications of one name get the
/// same directories from two environments that hold the same.
pub proof fn same_inputs_same_directories(
    app: AppDir,
    again: AppDir,
    env: Environment,
    unchanged: Environment,
    xdg: XdgDir,
)
    requires
        app@ == again@,
        env@ == unchanged@,
    ensures
        env@.standard_dir(app@, xdg) == unchanged@.standard_dir(again@, xdg),
        env@.user_data_dir(app@) == unchanged@.user_data_dir(again@),
        env@.temp_dir(app@) == unchanged@.temp_dir(again@),
{
}

/// Only the variables of the platform have a say: two environments of one
/// platform that agree on those, on the home directory and on the root of the
/// temporary directories give the same directories, whatever other variables
/// either holds.
pub proof fn only_platform_variables_matter(
    app: AppDir,
    env: Environment,
    other: Environment,
    xdg: XdgDir,
)
    requires
        env@.platform == other@.platform,
        env@.home_dir == other@.home_dir,
        env@.temp_root == other@.temp_root,
        forall|i: int|
            0 <= i < env@.platform.spec_variables().len() ==> env@.var(
                #[trigger] env@.platform.spec_variables()[i],
            ) == other@.var(env@.platform.spec_variables()[i]),
    ensures
        env@.standard_dir(app@, xdg) == other@.standard_dir(app@, xdg),
        env@.user_data_dir(app@) == other@.user_data_dir(app@),
        env@.temp_dir(app@) == other@.temp_dir(app@),
{
    let keys = env@.platform.spec_variables();
    match env@.platform {
        Platform::Unix => {
            let i: int = match xdg {
                XdgDir::Data => 0,
                XdgDir::Config => 1,
                XdgDir::Cache => 2,
            };
            assert(keys[i] == xdg.spec_env_key());
        },
        Platform::Windows => {
            assert(keys[0] == spec_appdata_key());
        },
    }
}

/// Nothing is remembered between two resolutions. On Unix, once the variable
/// of the category `xdg` has been set to `value`, the directory of that
/// category is `value` with the application's name adjoined, whatever it was
/// before; so the answer changes unless it was that very path already.
pub proof fn changed_variable_is_seen(app: AppDir, env: Environment, xdg: XdgDir, value: Seq<char>)
    requires
        env@.platform == Platform::Unix,
    ensures
        env@.with_var(xdg.spec_env_key(), value).standard_dir(app@, xdg) == Some(
            joined(value, app@),
        ),
        env@.with_var(xdg.spec_env_key(), value).standard_dir(app@, xdg) != env@.standard_dir(
            app@,
            xdg,
        ) <==> env@.standard_dir(app@, xdg) != Some(joined(value, app@)),
{
}

/// On Unix, once the variable of the category `xdg` has been unset, the
/// directory of that category is the one under the home directory, or none
/// where no home directory is known.
pub proof fn removed_variable_is_seen(app: AppDir, env: Environment, xdg: XdgDir)
    requires
        env@.platform == Platform::Unix,
    ensures
        env@.without_var(xdg.spec_env_key()).standard_dir(app@, xdg) == match env@.home_dir {
            Some(home) => Some(joined(joined(home, xdg.spec_home_subdir()), app@)),
            None => None,
        },
{
}

/// On Windows, once `APPDATA` has been set to `value`, the directory of every
/// category and the per-user data directory are `value` with the
/// application's name adjoined; once it has been unset, there is neither.
pub proof fn changed_appdata_is_seen(app: AppDir, env: Environment, xdg: XdgDir, value: Seq<char>)
    requires
        env@.platform == Platform::Windows,
    ensures
        env@.with_var(spec_appdata_key(), value).standard_dir(app@, xdg) == Some(
            joined(value, app@),
        ),
        env@.with_var(spec_appdata_key(), value).user_data_dir(app@) == Some(
            joined(value, app@),
        ),
        env@.without_var(spec_appdata_key()).standard_dir(app@, xdg) is None,
        env@.without_var(spec_appdata_key()).user_data_dir(app@) is None,
{
}

} // verus!
