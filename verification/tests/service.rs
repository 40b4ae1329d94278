use loft::cli::ServiceName;
use loft::service::{all_services, get_definition, messenger, whatsapp};

#[test]
fn test_all_services_have_unique_names() {
    let services = all_services();
    let names: Vec<&str> = services.iter().map(|s| s.name).collect();
    let mut dedup = names.clone();
    dedup.sort();
    dedup.dedup();
    assert_eq!(names.len(), dedup.len());
}

#[test]
fn test_all_services_have_valid_urls() {
    for service in all_services() {
        assert!(service.url.starts_with("https://"));
        assert!(service.app_icon_url.starts_with("https://"));
        assert!(service.tray_icon_url.starts_with("https://"));
    }
}

#[test]
fn test_get_definition() {
    let wa = get_definition(&ServiceName::Whatsapp);
    assert_eq!(wa.name, "whatsapp");

    let msg = get_definition(&ServiceName::Messenger);
    assert_eq!(msg.name, "messenger");
}

#[test]
fn definitions_hold_what_is_fixed() {
    let wa = whatsapp();
    assert_eq!(wa.display_name, "WhatsApp");
    assert_eq!(wa.url, "https://web.whatsapp.com/");
    assert_eq!(wa.dbus_name, "WhatsApp");
    assert_eq!(wa.app_icon_filename, "whatsapp.svg");
    assert_eq!(wa.chrome_desktop_id, "chrome-web.whatsapp.com__-Default");
    let me = messenger();
    assert_eq!(me.display_name, "Facebook Messenger");
    assert_eq!(me.url, "https://facebook.com/messages/");
    assert_eq!(me.chrome_desktop_id, "chrome-facebook.com_messages_-Default");
    assert_eq!(all_services().len(), 2);
}

#[test]
fn icon_names_are_built_from_the_service_name() {
    assert_eq!(whatsapp().tray_icon_name(), "loft-whatsapp-symbolic");
    assert_eq!(messenger().app_icon_name(), "loft-messenger");
    assert_eq!(ServiceName::Messenger.name(), "messenger");
}
