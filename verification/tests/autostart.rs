use loft::autostart::{
    autostart_method, entry_action, portal_accepted, portal_command, portal_reason,
    with_autostart, AutostartMethod, EntryAction, PORTAL_DENIED_MESSAGE,
};
use loft::chrome::LaunchMethod;
use loft::config::ServiceConfig;
use loft::service::{messenger, whatsapp};

#[test]
fn autostart_goes_through_the_portal_only_in_a_sandbox() {
    assert_eq!(autostart_method(true), AutostartMethod::Portal);
    assert_eq!(autostart_method(false), AutostartMethod::DesktopEntry);
}

#[test]
fn autostart_entry_is_written_or_removed() {
    assert_eq!(entry_action(true, false), EntryAction::Write);
    assert_eq!(entry_action(true, true), EntryAction::Write);
    assert_eq!(entry_action(false, true), EntryAction::Remove);
    assert_eq!(entry_action(false, false), EntryAction::Nothing);
}

#[test]
fn portal_request_names_the_service() {
    assert_eq!(portal_reason(&whatsapp()), "WhatsApp \u{2014} start at login via Loft");
    assert_eq!(portal_command(&messenger()), vec!["loft", "--service", "messenger", "--minimized"]);
    assert_eq!(PORTAL_DENIED_MESSAGE, "Autostart permission denied by the portal");
}

#[test]
fn portal_must_grant_what_is_switched_on() {
    assert!(portal_accepted(true, true));
    assert!(!portal_accepted(true, false));
    assert!(portal_accepted(false, false));
    assert!(portal_accepted(false, true));
}

#[test]
fn only_the_autostart_setting_is_stored() {
    let config = ServiceConfig {
        autostart: false,
        do_not_disturb: true,
        show_titlebar: false,
        start_hidden: true,
    };
    assert_eq!(
        with_autostart(config, true),
        ServiceConfig { autostart: true, do_not_disturb: true, show_titlebar: false, start_hidden: true }
    );
}

#[test]
fn launch_methods_have_their_word() {
    assert_eq!(LaunchMethod::Direct.label(), "direct");
    assert_eq!(LaunchMethod::Flatpak.label(), "flatpak");
    assert_eq!(LaunchMethod::AppImage.label(), "appimage");
}
