//! Starting a service at login: through the desktop's background portal
//! inside a sandbox, through an autostart entry outside of one.

use vstd::prelude::*;
use crate::config::ServiceConfig;
use crate::service::ServiceDefinition;
use crate::text::texts;

verus! {

/// The way in which autostart is switched.
#[derive(Debug, Clone, Copy, PartialEq, Eq, Structural)]
pub enum AutostartMethod {
    /// Ask the desktop's background portal.
    Portal,
    /// Write or remove the autostart entry.
    DesktopEntry,
}

/// Picks the way in which autostart is switched: the portal inside a
/// sandbox, the autostart entry outside of one.
pub fn autostart_method(sandboxed: bool) -> (method: AutostartMethod)
    ensures
        method == (if sandboxed {
            AutostartMethod::Portal
        } else {
            AutostartMethod::DesktopEntry
        }),
{
    if sandboxed {
        AutostartMethod::Portal
    } else {
        AutostartMethod::DesktopEntry
    }
}

/// What is done to the autostart entry.
#[derive(Debug, Clone, Copy, PartialEq, Eq, Structural)]
pub enum EntryAction {
    /// Write the entry, over one that is there.
    Write,
    /// Remove the entry.
    Remove,
    /// Leave things as they are.
    Nothing,
}

/// Decides what is done to the autostart entry: it is written when
/// autostart is switched on, and removed when it is switched off and the
/// entry exists.
pub fn entry_action(enabled: bool, exists: bool) -> (action: EntryAction)
    ensures
        action == (if enabled {
            EntryAction::Write
        } else if exists {
            EntryAction::Remove
        } else {
            EntryAction::Nothing
        }),
{
    if enabled {
        EntryAction::Write
    } else if exists {
        EntryAction::Remove
    } else {
        EntryAction::Nothing
    }
}

/// The reason that the portal shows to the user.
pub fn portal_reason(definition: &ServiceDefinition) -> (reason: String)
    ensures
        reason@ == definition.display_name@ + " \u{2014} start at login via Loft"@,
{
    let mut reason = String::from_str(definition.display_name);
    reason.append(" \u{2014} start at login via Loft");
    reason
}

/// The command that the portal registers for the login.
pub fn portal_command(definition: &ServiceDefinition) -> (command: Vec<String>)
    ensures
        texts(command@) == seq!["loft"@, "--service"@, definition.name@, "--minimized"@],
{
    let mut command: Vec<String> = Vec::new();
    command.push(String::from_str("loft"));
    command.push(String::from_str("--service"));
    command.push(String::from_str(definition.name));
    command.push(String::from_str("--minimized"));
    assert(texts(command@) =~= seq!["loft"@, "--service"@, definition.name@, "--minimized"@]);
    command
}

/// The text that is reported when the portal refuses.
pub const PORTAL_DENIED_MESSAGE: &'static str = "Autostart permission denied by the portal";

/// Whether the portal's answer does what was asked: switching on needs the
/// portal's grant, switching off needs nothing.
pub fn portal_accepted(enabled: bool, granted: bool) -> (accepted: bool)
    ensures
        accepted == (!enabled || granted),
{
    !enabled || granted
}

/// The configuration to store after autostart was switched with success.
/// Only the autostart setting changes.
pub fn with_autostart(config: ServiceConfig, enabled: bool) -> (updated: ServiceConfig)
    ensures
        updated == (ServiceConfig { autostart: enabled, ..config }),
{
    ServiceConfig { autostart: enabled, ..config }
}

} // verus!
