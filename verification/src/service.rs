//! The services that the daemon can run, and what is fixed about each.

use vstd::prelude::*;
use crate::cli::ServiceName;

verus! {

/// What is fixed about one service.
#[derive(Clone, Copy, Debug)]
pub struct ServiceDefinition {
    pub name: &'static str,
    pub display_name: &'static str,
    pub url: &'static str,
    pub dbus_name: &'static str,
    /// Where the application icon is fetched from.
    pub app_icon_url: &'static str,
    /// File name of the application icon under the daemon's icon directory.
    pub app_icon_filename: &'static str,
    /// Where the status-icon image is fetched from.
    pub tray_icon_url: &'static str,
    /// Desktop entry id that the browser gives its window for this service.
    pub chrome_desktop_id: &'static str,
}

/// The definition of WhatsApp.
pub open spec fn whatsapp_definition() -> ServiceDefinition {
    ServiceDefinition {
        name: "whatsapp",
        display_name: "WhatsApp",
        url: "https://web.whatsapp.com/",
        dbus_name: "WhatsApp",
        app_icon_url: "https://raw.githubusercontent.com/keithvassallomt/loft/main/assets/icons/whatsapp.svg",
        app_icon_filename: "whatsapp.svg",
        tray_icon_url: "https://raw.githubusercontent.com/keithvassallomt/loft/main/assets/icons/whatsapp-symbolic.svg",
        chrome_desktop_id: "chrome-web.whatsapp.com__-Default",
    }
}

/// The definition of Facebook Messenger.
pub open spec fn messenger_definition() -> ServiceDefinition {
    ServiceDefinition {
        name: "messenger",
        display_name: "Facebook Messenger",
        url: "https://facebook.com/messages/",
        dbus_name: "Messenger",
        app_icon_url: "https://raw.githubusercontent.com/keithvassallomt/loft/main/assets/icons/messenger.svg",
        app_icon_filename: "messenger.svg",
        tray_icon_url: "https://raw.githubusercontent.com/keithvassallomt/loft/main/assets/icons/messenger-symbolic.svg",
        chrome_desktop_id: "chrome-facebook.com_messages_-Default",
    }
}

/// The definition that belongs to each service name.
pub open spec fn definition_of(name: ServiceName) -> ServiceDefinition {
    match name {
        ServiceName::Whatsapp => whatsapp_definition(),
        ServiceName::Messenger => messenger_definition(),
    }
}

/// The definition of WhatsApp.
pub fn whatsapp() -> (definition: ServiceDefinition)
    ensures
        definition == whatsapp_definition(),
{
    ServiceDefinition {
        name: "whatsapp",
        display_name: "WhatsApp",
        url: "https://web.whatsapp.com/",
        dbus_name: "WhatsApp",
        app_icon_url: "https://raw.githubusercontent.com/keithvassallomt/loft/main/assets/icons/whatsapp.svg",
        app_icon_filename: "whatsapp.svg",
        tray_icon_url: "https://raw.githubusercontent.com/keithvassallomt/loft/main/assets/icons/whatsapp-symbolic.svg",
        chrome_desktop_id: "chrome-web.whatsapp.com__-Default",
    }
}

/// The definition of Facebook Messenger.
pub fn messenger() -> (definition: ServiceDefinition)
    ensures
        definition == messenger_definition(),
{
    ServiceDefinition {
        name: "messenger",
        display_name: "Facebook Messenger",
        url: "https://facebook.com/messages/",
        dbus_name: "Messenger",
        app_icon_url: "https://raw.githubusercontent.com/keithvassallomt/loft/main/assets/icons/messenger.svg",
        app_icon_filename: "messenger.svg",
        tray_icon_url: "https://raw.githubusercontent.com/keithvassallomt/loft/main/assets/icons/messenger-symbolic.svg",
        chrome_desktop_id: "chrome-facebook.com_messages_-Default",
    }
}

/// Every service, in the order in which they are listed to the user.
pub fn all_services() -> (services: Vec<ServiceDefinition>)
    ensures
        services@ == seq![whatsapp_definition(), messenger_definition()],
{
    let mut services: Vec<ServiceDefinition> = Vec::new();
    services.push(whatsapp());
    services.push(messenger());
    assert(services@ =~= seq![whatsapp_definition(), messenger_definition()]);
    services
}

/// The definition of the service called `name`.
pub fn get_definition(name: &ServiceName) -> (definition: ServiceDefinition)
    ensures
        definition == definition_of(*name),
{
    match name {
        ServiceName::Whatsapp => whatsapp(),
        ServiceName::Messenger => messenger(),
    }
}

impl ServiceName {
    /// The name as it is written on the command line and in file names.
    pub fn name(&self) -> (text: &'static str)
        ensures
            text@ == definition_of(*self).name@,
    {
        match self {
            ServiceName::Whatsapp => "whatsapp",
            ServiceName::Messenger => "messenger",
        }
    }
}

impl ServiceDefinition {
    /// Icon-theme name of the application icon: `loft-<name>`.
    pub fn app_icon_name(&self) -> (icon: String)
        ensures
            icon@ == "loft-"@ + self.name@,
    {
        let mut icon = String::from_str("loft-");
        icon.append(self.name);
        icon
    }

    /// Icon-theme name of the status icon: `loft-<name>-symbolic`.
    pub fn tray_icon_name(&self) -> (icon: String)
        ensures
            icon@ == "loft-"@ + self.name@ + "-symbolic"@,
    {
        let mut icon = String::from_str("loft-");
        icon.append(self.name);
        icon.append("-symbolic");
        icon
    }
}

} // verus!
