//! What installing a service puts on disk: where each file goes and what it
//! holds. Writing and removing the files is the caller's business.

use vstd::prelude::*;
use vstd::utf8::encode_utf8;
use crate::json::json_string_literal;
use crate::json::quote_json;
use crate::paths::data_home;
use crate::paths::join_path;
use crate::paths::joined;
use crate::paths::path_exists;
use crate::service::ServiceDefinition;
use crate::service::all_services;
use crate::text::bytes_end_with;
use crate::text::has_suffix;

verus! {

/// The identifier that the browser gives the companion extension.
pub const EXTENSION_ID: &'static str = "eofapmpkglkhhdjadegnleadgbjooljp";

/// The identifier of the desktop shell's extension.
pub const SHELL_EXTENSION_ID: &'static str = "loft-shell-helper@chat.loft";

/// The daemon's own directory under the data directory `data_home`.
pub fn data_dir_under(data_home: &str) -> (path: String)
    ensures
        path@ == joined(data_home@, "loft"@),
{
    join_path(data_home, "loft")
}

/// The file of a service's application icon under `data_home`.
pub fn icon_path_under(data_home: &str, definition: &ServiceDefinition) -> (path: String)
    ensures
        path@ == joined(
            joined(joined(data_home@, "loft"@), "icons"@),
            definition.app_icon_filename@,
        ),
{
    let own = join_path(data_home, "loft");
    let icons = join_path(own.as_str(), "icons");
    join_path(icons.as_str(), definition.app_icon_filename)
}

/// The desktop entry of a service under `data_home`:
/// `applications/loft-<name>.desktop`.
pub open spec fn desktop_entry_path_in(data_home: Seq<char>, definition: ServiceDefinition) -> Seq<
    char,
> {
    joined(joined(data_home, "applications"@), "loft-"@ + definition.name@ + ".desktop"@)
}

/// The desktop entry of a service under `data_home`.
pub fn desktop_entry_path_under(data_home: &str, definition: &ServiceDefinition) -> (path: String)
    ensures
        path@ == desktop_entry_path_in(data_home@, *definition),
{
    let applications = join_path(data_home, "applications");
    let mut file = String::from_str("loft-");
    file.append(definition.name);
    file.append(".desktop");
    join_path(applications.as_str(), file.as_str())
}

/// The desktop entry that matches the identity which the browser gives its
/// window for a service: `applications/<desktop id>.desktop` under
/// `data_home`.
pub fn chrome_notification_desktop_path_under(
    data_home: &str,
    definition: &ServiceDefinition,
) -> (path: String)
    ensures
        path@ == joined(
            joined(data_home@, "applications"@),
            definition.chrome_desktop_id@ + ".desktop"@,
        ),
{
    let applications = join_path(data_home, "applications");
    let mut file = String::from_str(definition.chrome_desktop_id);
    file.append(".desktop");
    join_path(applications.as_str(), file.as_str())
}

/// The manifest of the native-messaging host under the configuration
/// directory `config_home`.
pub fn nm_host_manifest_path_under(config_home: &str) -> (path: String)
    ensures
        path@ == joined(
            config_home@,
            "google-chrome/NativeMessagingHosts/chat.loft.host.json"@,
        ),
{
    join_path(config_home, "google-chrome/NativeMessagingHosts/chat.loft.host.json")
}

/// The manifest of the native-messaging host inside a browser profile.
pub fn profile_nm_manifest_path(profile_path: &str) -> (path: String)
    ensures
        path@ == joined(joined(profile_path@, "NativeMessagingHosts"@), "chat.loft.host.json"@),
{
    let hosts = join_path(profile_path, "NativeMessagingHosts");
    join_path(hosts.as_str(), "chat.loft.host.json")
}

/// The script through which the browser starts the relay, under `data_home`.
pub fn nm_wrapper_path_under(data_home: &str) -> (path: String)
    ensures
        path@ == joined(joined(data_home@, "loft"@), "nm-host.sh"@),
{
    let own = join_path(data_home, "loft");
    join_path(own.as_str(), "nm-host.sh")
}

/// The autostart entry of a service under `config_home`:
/// `autostart/loft-<name>.desktop`.
pub fn autostart_path_under(config_home: &str, definition: &ServiceDefinition) -> (path: String)
    ensures
        path@ == joined(
            joined(config_home@, "autostart"@),
            "loft-"@ + definition.name@ + ".desktop"@,
        ),
{
    let autostart = join_path(config_home, "autostart");
    let mut file = String::from_str("loft-");
    file.append(definition.name);
    file.append(".desktop");
    join_path(autostart.as_str(), file.as_str())
}

/// The directory of the desktop shell's extension under `data_home`.
pub fn shell_extension_dir_under(data_home: &str) -> (path: String)
    ensures
        path@ == joined(data_home@, "gnome-shell/extensions/loft-shell-helper@chat.loft"@),
{
    join_path(data_home, "gnome-shell/extensions/loft-shell-helper@chat.loft")
}

/// Whether a file name or an address ends in `.svg`.
pub open spec fn names_svg(name: Seq<char>) -> bool {
    has_suffix(encode_utf8(name), encode_utf8(".svg"@))
}

/// Whether a file name or an address ends in `.svg`.
pub fn is_svg(name: &str) -> (svg: bool)
    ensures
        svg == names_svg(name@),
{
    bytes_end_with(name.as_bytes(), ".svg".as_bytes())
}

/// Where an icon goes in the icon theme under `data_home`: a scalable image
/// under `scalable/apps`, with the suffix `.svg`; any other under
/// `48x48/apps`, with the suffix `.png`.
pub open spec fn theme_icon_path_in(data_home: Seq<char>, icon_name: Seq<char>, svg: bool) -> Seq<
    char,
> {
    let theme = joined(data_home, "icons/hicolor"@);
    if svg {
        joined(joined(theme, "scalable/apps"@), icon_name + ".svg"@)
    } else {
        joined(joined(theme, "48x48/apps"@), icon_name + ".png"@)
    }
}

/// Where an icon goes in the icon theme under `data_home`.
pub fn theme_icon_path_under(data_home: &str, icon_name: &str, svg: bool) -> (path: String)
    ensures
        path@ == theme_icon_path_in(data_home@, icon_name@, svg),
{
    let theme = join_path(data_home, "icons/hicolor");
    let mut file = String::from_str(icon_name);
    if svg {
        file.append(".svg");
        let dir = join_path(theme.as_str(), "scalable/apps");
        join_path(dir.as_str(), file.as_str())
    } else {
        file.append(".png");
        let dir = join_path(theme.as_str(), "48x48/apps");
        join_path(dir.as_str(), file.as_str())
    }
}

/// The desktop entry of a service in this environment.
pub fn desktop_entry_path(definition: &ServiceDefinition) -> (path: String)
    ensures
        exists|home: Seq<char>| path@ == desktop_entry_path_in(home, *definition),
{
    let home = data_home();
    desktop_entry_path_under(home.as_str(), definition)
}

/// Whether a service is installed: whether its desktop entry exists.
pub fn is_service_installed(definition: &ServiceDefinition) -> (installed: bool) {
    let path = desktop_entry_path(definition);
    path_exists(path.as_str())
}

/// Whether any service is installed.
pub fn any_service_installed() -> (installed: bool) {
    let services = all_services();
    let mut answers: Vec<bool> = Vec::new();
    let mut i: usize = 0;
    while i < services.len()
        invariant
            i <= services@.len(),
        decreases services@.len() - i,
    {
        answers.push(is_service_installed(&services[i]));
        i += 1;
    }
    any_installed(&answers)
}

/// Whether any service is installed, where `installed` holds for each
/// service in turn whether it is.
pub fn any_installed(installed: &Vec<bool>) -> (any: bool)
    ensures
        any == installed@.contains(true),
{
    let mut i: usize = 0;
    while i < installed.len()
        invariant
            i <= installed@.len(),
            forall|k: int| 0 <= k < i ==> !installed@[k],
        decreases installed@.len() - i,
    {
        if installed[i] {
            return true;
        }
        i += 1;
    }
    false
}

/// The contents of a service's desktop entry, which starts the daemon
/// `exec` for the service and shows the icon `icon`.
pub open spec fn desktop_entry_text(
    definition: ServiceDefinition,
    exec: Seq<char>,
    icon: Seq<char>,
) -> Seq<char> {
    "[Desktop Entry]\nType=Application\nName="@ + definition.display_name@ + "\nComment=Open "@
        + definition.display_name@ + " via Loft\nExec="@ + exec + " --service "@
        + definition.name@ + "\nIcon="@ + icon
        + "\nTerminal=false\nCategories=Network;InstantMessaging;\nStartupWMClass=loft-"@
        + definition.name@ + "\n"@
}

/// The contents of a service's desktop entry.
pub fn desktop_entry_content(definition: &ServiceDefinition, exec: &str, icon: &str) -> (content:
    String)
    ensures
        content@ == desktop_entry_text(*definition, exec@, icon@),
{
    let mut content = String::from_str("[Desktop Entry]\nType=Application\nName=");
    content.append(definition.display_name);
    content.append("\nComment=Open ");
    content.append(definition.display_name);
    content.append(" via Loft\nExec=");
    content.append(exec);
    content.append(" --service ");
    content.append(definition.name);
    content.append("\nIcon=");
    content.append(icon);
    content.append(
        "\nTerminal=false\nCategories=Network;InstantMessaging;\nStartupWMClass=loft-",
    );
    content.append(definition.name);
    content.append("\n");
    content
}

/// The contents of the hidden desktop entry that gives the browser's window
/// a name, an icon and a command.
pub open spec fn chrome_desktop_text(
    definition: ServiceDefinition,
    exec: Seq<char>,
    icon: Seq<char>,
) -> Seq<char> {
    "[Desktop Entry]\nType=Application\nName="@ + definition.display_name@ + "\nExec="@ + exec
        + " --service "@ + definition.name@ + "\nIcon="@ + icon + "\nNoDisplay=true\n"@
}

/// The contents of the hidden desktop entry for the browser's window.
pub fn chrome_desktop_content(definition: &ServiceDefinition, exec: &str, icon: &str) -> (content:
    String)
    ensures
        content@ == chrome_desktop_text(*definition, exec@, icon@),
{
    let mut content = String::from_str("[Desktop Entry]\nType=Application\nName=");
    content.append(definition.display_name);
    content.append("\nExec=");
    content.append(exec);
    content.append(" --service ");
    content.append(definition.name);
    content.append("\nIcon=");
    content.append(icon);
    content.append("\nNoDisplay=true\n");
    content
}

/// The contents of a service's autostart entry, which starts the daemon
/// `exec` with its window hidden.
pub open spec fn autostart_text(definition: ServiceDefinition, exec: Seq<char>) -> Seq<char> {
    "[Desktop Entry]\nType=Application\nName="@ + definition.display_name@ + "\nComment="@
        + definition.display_name@ + " (Loft)\nExec="@ + exec + " --service "@
        + definition.name@ + " --minimized\nIcon=loft-"@ + definition.name@
        + "\nTerminal=false\nX-GNOME-Autostart-enabled=true\n"@
}

/// The contents of a service's autostart entry.
pub fn autostart_content(definition: &ServiceDefinition, exec: &str) -> (content: String)
    ensures
        content@ == autostart_text(*definition, exec@),
{
    let mut content = String::from_str("[Desktop Entry]\nType=Application\nName=");
    content.append(definition.display_name);
    content.append("\nComment=");
    content.append(definition.display_name);
    content.append(" (Loft)\nExec=");
    content.append(exec);
    content.append(" --service ");
    content.append(definition.name);
    content.append(" --minimized\nIcon=loft-");
    content.append(definition.name);
    content.append("\nTerminal=false\nX-GNOME-Autostart-enabled=true\n");
    content
}

/// The script through which the browser starts the relay: it runs `exec`
/// with `--native-messaging` and hands on its own arguments.
pub fn nm_wrapper_content(exec: &str) -> (content: String)
    ensures
        content@ == "#!/bin/sh\nexec \""@ + exec@ + "\" --native-messaging \"$@\"\n"@,
{
    let mut content = String::from_str("#!/bin/sh\nexec \"");
    content.append(exec);
    content.append("\" --native-messaging \"$@\"\n");
    content
}

/// The origin of the companion extension, which alone may talk to the host.
pub fn extension_origin() -> (origin: String)
    ensures
        origin@ == "chrome-extension://"@ + EXTENSION_ID@ + "/"@,
{
    let mut origin = String::from_str("chrome-extension://");
    origin.append(EXTENSION_ID);
    origin.append("/");
    origin
}

/// The manifest of the native-messaging host, which names the script at
/// `wrapper_path`: indented JSON with its members in alphabetical order.
pub open spec fn nm_manifest_text(wrapper_path: Seq<char>) -> Seq<char> {
    "{\n  \"allowed_origins\": [\n    "@ + json_string_literal(
        "chrome-extension://"@ + EXTENSION_ID@ + "/"@,
    )
        + "\n  ],\n  \"description\": \"Loft desktop integration native messaging host\",\n  \"name\": \"chat.loft.host\",\n  \"path\": "@
        + json_string_literal(wrapper_path) + ",\n  \"type\": \"stdio\"\n}"@
}

/// The manifest of the native-messaging host.
pub fn nm_manifest_content(wrapper_path: &str) -> (content: String)
    ensures
        content@ == nm_manifest_text(wrapper_path@),
{
    let origin = extension_origin();
    let quoted_origin = quote_json(origin.as_str());
    let quoted_path = quote_json(wrapper_path);
    let mut content = String::from_str("{\n  \"allowed_origins\": [\n    ");
    content.append(quoted_origin.as_str());
    content.append(
        "\n  ],\n  \"description\": \"Loft desktop integration native messaging host\",\n  \"name\": \"chat.loft.host\",\n  \"path\": ",
    );
    content.append(quoted_path.as_str());
    content.append(",\n  \"type\": \"stdio\"\n}");
    content
}

} // verus!
