//! Where the daemon keeps its files: paths as text, joined as the operating
//! system joins them, under the user's data and configuration directories.

use vstd::prelude::*;

verus! {

/// The path `base` with `component` joined to it, as Unix paths are joined:
/// an absolute component stands alone; otherwise the two are put together
/// with one `/` between them, which an empty base, or one that ends in `/`,
/// does not need.
pub open spec fn joined(base: Seq<char>, component: Seq<char>) -> Seq<char> {
    if component.len() > 0 && component[0] == '/' {
        component
    } else if base.len() == 0 || base.last() == '/' {
        base + component
    } else {
        base + seq!['/'] + component
    }
}

/// Joins `component` to the path `base`.
pub fn join_path(base: &str, component: &str) -> (path: String)
    ensures
        path@ == joined(base@, component@),
{
    proof {
        reveal_strlit("/");
    }
    if component.unicode_len() > 0 && component.get_char(0) == '/' {
        return String::from_str(component);
    }
    let base_len = base.unicode_len();
    let mut path = String::from_str(base);
    if base_len > 0 && base.get_char(base_len - 1) != '/' {
        path.append("/");
        assert("/"@ =~= seq!['/']);
    }
    path.append(component);
    path
}

/// The user's data directory as the `dirs` crate finds it in the
/// environment, with bytes that are not UTF-8 replaced as
/// `to_string_lossy` replaces them. It depends on the environment of the
/// process, so nothing is claimed of what comes back.
#[verifier::external_body]
fn user_data_dir() -> (found: Option<String>) {
    match dirs::data_dir() {
        Some(dir) => Some(dir.to_string_lossy().into_owned()),
        None => None,
    }
}

/// The user's configuration directory as the `dirs` crate finds it in the
/// environment, with bytes that are not UTF-8 replaced as
/// `to_string_lossy` replaces them. It depends on the environment of the
/// process, so nothing is claimed of what comes back.
#[verifier::external_body]
pub(crate) fn user_config_dir() -> (found: Option<String>) {
    match dirs::config_dir() {
        Some(dir) => Some(dir.to_string_lossy().into_owned()),
        None => None,
    }
}

/// Whether something exists at `path`, as `std::path::Path::exists` reports
/// it. It depends on what is on disk at the moment of the call, so nothing
/// is claimed of what comes back.
#[verifier::external_body]
pub(crate) fn path_exists(path: &str) -> (exists: bool) {
    std::path::Path::new(path).exists()
}

/// The data directory to use where the environment gives `found`.
pub open spec fn data_home_of(found: Option<Seq<char>>) -> Seq<char> {
    match found {
        Some(dir) => dir,
        None => "~/.local/share"@,
    }
}

/// The configuration directory to use where the environment gives `found`.
pub open spec fn config_home_of(found: Option<Seq<char>>) -> Seq<char> {
    match found {
        Some(dir) => dir,
        None => "~/.config"@,
    }
}

/// The view of an optional string.
pub open spec fn text_of(found: Option<String>) -> Option<Seq<char>> {
    match found {
        Some(dir) => Some(dir@),
        None => None,
    }
}

/// The data directory to use where the environment gives `found`: that
/// directory, or `~/.local/share` where it gives none.
pub fn data_home_from(found: Option<String>) -> (home: String)
    ensures
        home@ == data_home_of(text_of(found)),
{
    match found {
        Some(dir) => dir,
        None => String::from_str("~/.local/share"),
    }
}

/// The configuration directory to use where the environment gives `found`:
/// that directory, or `~/.config` where it gives none.
pub fn config_home_from(found: Option<String>) -> (home: String)
    ensures
        home@ == config_home_of(text_of(found)),
{
    match found {
        Some(dir) => dir,
        None => String::from_str("~/.config"),
    }
}

/// The data directory that the daemon uses in this environment.
pub fn data_home() -> (home: String) {
    data_home_from(user_data_dir())
}

/// The configuration directory that the daemon uses in this environment.
pub fn config_home() -> (home: String) {
    config_home_from(user_config_dir())
}

} // verus!
