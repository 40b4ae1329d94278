//! The browser that the daemon runs: where it is found, and how it is
//! started for a service.

use vstd::prelude::*;
use crate::config::GlobalConfig;
use crate::paths::data_home;
use crate::paths::join_path;
use crate::paths::joined;
use crate::paths::path_exists;
use crate::service::ServiceDefinition;
use crate::text::texts;

verus! {

/// How a browser is started.
#[derive(Debug, Clone, Copy, PartialEq, Eq, Structural)]
pub enum LaunchMethod {
    /// The binary is run as it is.
    Direct,
    /// The browser is a Flatpak application, run through `flatpak`.
    Flatpak,
    /// The binary is an AppImage, run as it is.
    AppImage,
}

impl LaunchMethod {
    /// The word for the method in the log.
    pub fn label(&self) -> (word: &'static str)
        ensures
            word@ == (match *self {
                LaunchMethod::Direct => "direct"@,
                LaunchMethod::Flatpak => "flatpak"@,
                LaunchMethod::AppImage => "appimage"@,
            }),
    {
        match self {
            LaunchMethod::Direct => "direct",
            LaunchMethod::Flatpak => "flatpak",
            LaunchMethod::AppImage => "appimage",
        }
    }
}

/// A browser that was found.
#[derive(Debug)]
pub struct ChromeInfo {
    /// The binary's path, or the application id for a Flatpak.
    pub path: String,
    pub launch_method: LaunchMethod,
}

/// A program and its arguments, ready to be started.
#[derive(Debug)]
pub struct CommandSpec {
    pub program: String,
    pub args: Vec<String>,
}

/// The marker file that exists inside a Flatpak sandbox.
pub const FLATPAK_INFO_PATH: &'static str = "/.flatpak-info";

/// Whether this process runs inside a Flatpak sandbox: whether the marker
/// file exists.
pub fn is_flatpak() -> (sandboxed: bool) {
    path_exists(FLATPAK_INFO_PATH)
}

/// The arguments with which the browser is started for `service`, with its
/// profile under `profile_path`.
pub open spec fn chrome_args(service: ServiceDefinition, profile_path: Seq<char>) -> Seq<
    Seq<char>,
> {
    seq![
        "--app="@ + service.url@,
        "--user-data-dir="@ + profile_path,
        "--class=loft-"@ + service.name@,
        "--remote-debugging-pipe"@,
        "--enable-unsafe-extension-debugging"@,
        "--no-first-run"@,
        "--no-default-browser-check"@,
        "--ozone-platform=wayland"@,
    ]
}

/// Builds the arguments with which the browser is started for `service`.
///
/// The browser shows the service's page as an application window, keeps its
/// data under `profile_path`, and opens the debugging pipe through which the
/// extension is loaded.
pub fn build_chrome_args(service: &ServiceDefinition, profile_path: &str) -> (args: Vec<String>)
    ensures
        texts(args@) == chrome_args(*service, profile_path@),
{
    let mut app = String::from_str("--app=");
    app.append(service.url);
    let mut data_dir = String::from_str("--user-data-dir=");
    data_dir.append(profile_path);
    let mut class = String::from_str("--class=loft-");
    class.append(service.name);
    let mut args: Vec<String> = Vec::new();
    args.push(app);
    args.push(data_dir);
    args.push(class);
    args.push(String::from_str("--remote-debugging-pipe"));
    args.push(String::from_str("--enable-unsafe-extension-debugging"));
    args.push(String::from_str("--no-first-run"));
    args.push(String::from_str("--no-default-browser-check"));
    args.push(String::from_str("--ozone-platform=wayland"));
    assert(texts(args@) =~= chrome_args(*service, profile_path@));
    args
}

/// The program that starts the browser.
pub open spec fn launch_program(path: Seq<char>, method: LaunchMethod, sandboxed: bool) -> Seq<
    char,
> {
    match method {
        LaunchMethod::Direct => path,
        LaunchMethod::AppImage => path,
        LaunchMethod::Flatpak => if sandboxed {
            "flatpak-spawn"@
        } else {
            "flatpak"@
        },
    }
}

/// The arguments that stand before the browser's own.
pub open spec fn launch_prefix(path: Seq<char>, method: LaunchMethod, sandboxed: bool) -> Seq<
    Seq<char>,
> {
    match method {
        LaunchMethod::Direct => Seq::empty(),
        LaunchMethod::AppImage => Seq::empty(),
        LaunchMethod::Flatpak => if sandboxed {
            seq!["--host"@, "flatpak"@, "run"@, path]
        } else {
            seq!["run"@, path]
        },
    }
}

/// Builds the command that starts the browser `chrome` with `args`.
///
/// A binary or an AppImage is run as it is. A Flatpak browser is run with
/// `flatpak run`, and from inside a sandbox (`sandboxed`) through
/// `flatpak-spawn --host`.
pub fn build_chrome_command(chrome: &ChromeInfo, args: &Vec<String>, sandboxed: bool) -> (command:
    CommandSpec)
    ensures
        command.program@ == launch_program(chrome.path@, chrome.launch_method, sandboxed),
        texts(command.args@) == launch_prefix(chrome.path@, chrome.launch_method, sandboxed)
            + texts(args@),
{
    let mut all: Vec<String> = Vec::new();
    let program = match chrome.launch_method {
        LaunchMethod::Direct => chrome.path.clone(),
        LaunchMethod::AppImage => chrome.path.clone(),
        LaunchMethod::Flatpak => {
            if sandboxed {
                all.push(String::from_str("--host"));
                all.push(String::from_str("flatpak"));
                all.push(String::from_str("run"));
                all.push(chrome.path.clone());
                String::from_str("flatpak-spawn")
            } else {
                all.push(String::from_str("run"));
                all.push(chrome.path.clone());
                String::from_str("flatpak")
            }
        },
    };
    let ghost prefix = launch_prefix(chrome.path@, chrome.launch_method, sandboxed);
    assert(texts(all@) =~= prefix);
    let mut i: usize = 0;
    while i < args.len()
        invariant
            i <= args@.len(),
            texts(all@) == prefix + texts(args@).take(i as int),
        decreases args@.len() - i,
    {
        let ghost before = all@;
        all.push(args[i].clone());
        assert(texts(all@) =~= texts(before).push(args@[i as int]@));
        assert(texts(args@).take(i + 1) =~= texts(args@).take(i as int).push(args@[i as int]@));
        i += 1;
    }
    assert(texts(args@).take(args@.len() as int) == texts(args@));
    CommandSpec { program, args: all }
}

/// The directory of a service's browser profile under the data directory
/// `data_home`.
pub open spec fn profile_path_in(data_home: Seq<char>, service_name: Seq<char>) -> Seq<char> {
    joined(joined(data_home, "loft/profiles"@), service_name)
}

/// The directory of the extension under the data directory `data_home`.
pub open spec fn extension_path_in(data_home: Seq<char>) -> Seq<char> {
    joined(data_home, "loft/extension"@)
}

/// The directory of a service's browser profile under `data_home`.
pub fn profile_path_under(data_home: &str, service_name: &str) -> (path: String)
    ensures
        path@ == profile_path_in(data_home@, service_name@),
{
    let profiles = join_path(data_home, "loft/profiles");
    join_path(profiles.as_str(), service_name)
}

/// The directory of the extension under `data_home`.
pub fn extension_path_under(data_home: &str) -> (path: String)
    ensures
        path@ == extension_path_in(data_home@),
{
    join_path(data_home, "loft/extension")
}

/// The directory of a service's browser profile in this environment.
pub fn profile_path(service_name: &str) -> (path: String)
    ensures
        exists|home: Seq<char>| path@ == profile_path_in(home, service_name@),
{
    let home = data_home();
    profile_path_under(home.as_str(), service_name)
}

/// The directory of the extension in this environment.
pub fn extension_path() -> (path: String)
    ensures
        exists|home: Seq<char>| path@ == extension_path_in(home),
{
    let home = data_home();
    extension_path_under(home.as_str())
}

} // verus!
