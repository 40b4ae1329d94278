//! The control interface: the operations that other processes call on a
//! running daemon, and the names under which the daemon is reached.

use vstd::prelude::*;
use crate::daemon::ShellCall;
use crate::service::ServiceDefinition;
use crate::state::DaemonState;
use crate::state::Effect;
use crate::state::Operation;
use crate::state::StateView;
use crate::state::effects_of;
use crate::state::state_after;

verus! {

/// The interface that the daemon serves.
pub const INTERFACE_NAME: &'static str = "chat.loft.Service";

/// The bus name of the desktop shell's helper.
pub const SHELL_HELPER_BUS_NAME: &'static str = "chat.loft.ShellHelper";

/// The object path of the desktop shell's helper.
pub const SHELL_HELPER_PATH: &'static str = "/chat/loft/ShellHelper";

/// The interface of the desktop shell's helper.
pub const SHELL_HELPER_INTERFACE: &'static str = "chat.loft.ShellHelper";

/// The bus name under which the daemon of a service registers:
/// `chat.loft.<dbus name>`. Whoever holds it is the one instance of that
/// service.
pub fn bus_name_for(definition: &ServiceDefinition) -> (name: String)
    ensures
        name@ == "chat.loft."@ + definition.dbus_name@,
{
    let mut name = String::from_str("chat.loft.");
    name.append(definition.dbus_name);
    name
}

/// The object path at which the daemon of a service is served:
/// `/chat/loft/<dbus name>`.
pub fn object_path_for(definition: &ServiceDefinition) -> (path: String)
    ensures
        path@ == "/chat/loft/"@ + definition.dbus_name@,
{
    let mut path = String::from_str("/chat/loft/");
    path.append(definition.dbus_name);
    path
}

/// A call on the control interface.
#[derive(Debug, Clone, Copy, PartialEq, Eq, Structural)]
pub enum ControlCall {
    Show,
    Hide,
    Toggle,
    Quit,
    GetStatus,
    SetShowTitlebar { show: bool },
}

/// The name of the method that a call goes by.
pub fn method_name(call: ControlCall) -> (name: &'static str)
    ensures
        name@ == (match call {
            ControlCall::Show => "Show"@,
            ControlCall::Hide => "Hide"@,
            ControlCall::Toggle => "Toggle"@,
            ControlCall::Quit => "Quit"@,
            ControlCall::GetStatus => "GetStatus"@,
            ControlCall::SetShowTitlebar { .. } => "SetShowTitlebar"@,
        }),
{
    match call {
        ControlCall::Show => "Show",
        ControlCall::Hide => "Hide",
        ControlCall::Toggle => "Toggle",
        ControlCall::Quit => "Quit",
        ControlCall::GetStatus => "GetStatus",
        ControlCall::SetShowTitlebar { .. } => "SetShowTitlebar",
    }
}

/// The name of the method of the shell's helper that a call goes by.
pub fn shell_method_name(call: ShellCall) -> (name: &'static str)
    ensures
        name@ == (match call {
            ShellCall::FocusWindow => "FocusWindow"@,
            ShellCall::HideWindow => "HideWindow"@,
        }),
{
    match call {
        ShellCall::FocusWindow => "FocusWindow",
        ShellCall::HideWindow => "HideWindow",
    }
}

/// The change to the state that a call makes; `None` for the status query,
/// which changes nothing.
pub open spec fn operation_of_call(call: ControlCall) -> Option<Operation> {
    match call {
        ControlCall::Show => Some(Operation::Show),
        ControlCall::Hide => Some(Operation::Hide),
        ControlCall::Toggle => Some(Operation::Toggle),
        ControlCall::Quit => Some(Operation::Quit),
        ControlCall::GetStatus => None,
        ControlCall::SetShowTitlebar { show } => Some(Operation::SetShowTitlebar { show }),
    }
}

/// What a call gives back to its caller and asks of the daemon.
#[derive(Debug)]
pub struct ControlReply {
    /// The answer to a status query: visibility, unread count,
    /// do-not-disturb. The other calls answer nothing.
    pub status: Option<(bool, u32, bool)>,
    /// What the daemon has to carry out.
    pub effects: Vec<Effect>,
}

/// Serves one call on the control interface.
///
/// `Show` sets the window visible, broadcasts `ShowWindow` and wakes the
/// supervisor. `Hide` sets it hidden and broadcasts `HideWindow`. `Toggle`
/// does the one or the other by the visibility at the time of the call.
/// `Quit` latches the quit flag, has the browser terminated if it runs, and
/// wakes the supervisor. `GetStatus` answers with the state as it is.
/// `SetShowTitlebar` keeps the preference, broadcasts it and has it stored.
pub fn handle_call(state: &mut DaemonState, call: ControlCall) -> (reply: ControlReply)
    ensures
        match operation_of_call(call) {
            Some(op) => final(state)@ == state_after(old(state)@, op) && reply.effects@
                == effects_of(old(state)@, op) && reply.status is None,
            None => final(state)@ == old(state)@ && reply.effects@ == Seq::<Effect>::empty()
                && reply.status == Some(
                (old(state)@.visible, old(state)@.badge_count, old(state)@.dnd),
            ),
        },
{
    match call {
        ControlCall::Show => ControlReply { status: None, effects: state.apply(Operation::Show) },
        ControlCall::Hide => ControlReply { status: None, effects: state.apply(Operation::Hide) },
        ControlCall::Toggle => ControlReply {
            status: None,
            effects: state.apply(Operation::Toggle),
        },
        ControlCall::Quit => ControlReply { status: None, effects: state.apply(Operation::Quit) },
        ControlCall::GetStatus => ControlReply {
            status: Some(state.get_status()),
            effects: Vec::new(),
        },
        ControlCall::SetShowTitlebar { show } => ControlReply {
            status: None,
            effects: state.apply(Operation::SetShowTitlebar { show }),
        },
    }
}

/// A toggle is a hide where the window is visible and a show where it is
/// not, in what it does to the state and in what it asks to be carried out.
pub proof fn lemma_toggle_dispatches(s: StateView)
    ensures
        s.visible ==> state_after(s, Operation::Toggle) == state_after(s, Operation::Hide)
            && effects_of(s, Operation::Toggle) == effects_of(s, Operation::Hide),
        !s.visible ==> state_after(s, Operation::Toggle) == state_after(s, Operation::Show)
            && effects_of(s, Operation::Toggle) == effects_of(s, Operation::Show),
{
}

} // verus!
