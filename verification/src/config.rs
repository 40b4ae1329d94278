//! What the user has configured: for the program as a whole and for each
//! service. Reading and writing the files is the caller's business.

use vstd::prelude::*;
use crate::paths::join_path;
use crate::paths::joined;
use crate::paths::text_of;
use crate::paths::user_config_dir;

verus! {

/// What is configured for the program as a whole.
#[derive(Debug, PartialEq, Eq)]
pub struct GlobalConfig {
    /// A browser binary to use in place of the one that detection finds.
    pub chrome_path: Option<String>,
}

impl Default for GlobalConfig {
    fn default() -> (config: GlobalConfig)
        ensures
            config.chrome_path is None,
    {
        GlobalConfig { chrome_path: None }
    }
}

/// What is configured for one service.
#[derive(Debug, Clone, Copy, PartialEq, Eq, Structural)]
pub struct ServiceConfig {
    /// Whether the service starts at login.
    pub autostart: bool,
    pub do_not_disturb: bool,
    /// Whether the in-page title bar is shown.
    pub show_titlebar: bool,
    /// Whether the service starts with its window hidden.
    pub start_hidden: bool,
}

impl Default for ServiceConfig {
    fn default() -> (config: ServiceConfig)
        ensures
            config == (ServiceConfig {
                autostart: false,
                do_not_disturb: false,
                show_titlebar: true,
                start_hidden: false,
            }),
    {
        ServiceConfig {
            autostart: false,
            do_not_disturb: false,
            show_titlebar: true,
            start_hidden: false,
        }
    }
}

/// The directory of the daemon's configuration under the user's
/// configuration directory `config_home`.
pub open spec fn config_dir_in(config_home: Seq<char>) -> Seq<char> {
    joined(config_home, "loft"@)
}

/// The directory of the daemon's configuration in this environment; `None`
/// where the environment gives no configuration directory.
pub fn config_dir() -> (dir: Option<String>)
    ensures
        dir matches Some(d) ==> exists|home: Seq<char>| d@ == config_dir_in(home),
{
    config_dir_from(user_config_dir())
}

/// The text that is reported where the environment gives no configuration
/// directory.
pub const NO_CONFIG_DIR_MESSAGE: &'static str = "Could not determine XDG_CONFIG_HOME";

/// The directory of the daemon's configuration, where the environment gives
/// the user's configuration directory `found`; `None` where it gives none.
pub fn config_dir_from(found: Option<String>) -> (dir: Option<String>)
    ensures
        text_of(dir) == (match found {
            Some(home) => Some(config_dir_in(home@)),
            None => None,
        }),
{
    match found {
        Some(home) => Some(join_path(home.as_str(), "loft")),
        None => None,
    }
}

/// The file of the program's configuration: `config.toml` in `config_dir`.
pub fn global_config_path(config_dir: &str) -> (path: String)
    ensures
        path@ == joined(config_dir@, "config.toml"@),
{
    join_path(config_dir, "config.toml")
}

/// The file of one service's configuration: `services/<service>.toml` in
/// `config_dir`.
pub fn service_config_path(config_dir: &str, service: &str) -> (path: String)
    ensures
        path@ == joined(joined(config_dir@, "services"@), service@ + ".toml"@),
{
    let services = join_path(config_dir, "services");
    let mut file = String::from_str(service);
    file.append(".toml");
    join_path(services.as_str(), file.as_str())
}

/// The configuration to store when the title bar preference changes. Only
/// that preference changes.
pub fn with_show_titlebar(config: ServiceConfig, show: bool) -> (updated: ServiceConfig)
    ensures
        updated == (ServiceConfig { show_titlebar: show, ..config }),
{
    ServiceConfig { show_titlebar: show, ..config }
}

} // verus!
