//! What the daemon decides while it starts: whether it is the one instance
//! of its service, how often it tries to put up the status icon, and what a
//! command means for the desktop shell.

use vstd::prelude::*;
use crate::messaging::DaemonMessage;

verus! {

/// What the question "is a daemon for this service already registered?" gave.
#[derive(Debug, Clone, Copy, PartialEq, Eq, Structural)]
pub enum SingletonCheck {
    AlreadyRunning,
    NotRunning,
    /// The question could not be asked.
    Unknown,
}

/// How the starting process goes on.
#[derive(Debug, Clone, Copy, PartialEq, Eq, Structural)]
pub enum StartupAction {
    /// Ask the running instance to show its window, then exit with success.
    ForwardShow,
    /// Become the daemon of the service.
    StartDaemon,
}

/// Decides from the singleton check how to go on. Only a positive answer
/// makes the process step back; a check that failed does not stop the start.
pub fn startup_action(check: SingletonCheck) -> (action: StartupAction)
    ensures
        action == (if check is AlreadyRunning {
            StartupAction::ForwardShow
        } else {
            StartupAction::StartDaemon
        }),
{
    match check {
        SingletonCheck::AlreadyRunning => StartupAction::ForwardShow,
        _ => StartupAction::StartDaemon,
    }
}

/// How many times the daemon tries to put up the status icon.
pub const TRAY_ATTEMPTS: usize = 5;

/// The seconds to wait before attempt `attempt` (counted from 0) to put up
/// the status icon: 0, 2, 4, 8, 16.
pub open spec fn tray_delay_secs(attempt: int) -> u64
    recommends
        0 <= attempt < TRAY_ATTEMPTS,
{
    if attempt == 0 {
        0
    } else if attempt == 1 {
        2
    } else if attempt == 2 {
        4
    } else if attempt == 3 {
        8
    } else {
        16
    }
}

/// The seconds to wait before attempt `attempt` (counted from 0); `None`
/// where there is no such attempt.
pub fn tray_retry_delay(attempt: usize) -> (delay: Option<u64>)
    ensures
        delay == (if attempt < TRAY_ATTEMPTS {
            Some(tray_delay_secs(attempt as int))
        } else {
            None
        }),
{
    if attempt == 0 {
        Some(0)
    } else if attempt == 1 {
        Some(2)
    } else if attempt == 2 {
        Some(4)
    } else if attempt == 3 {
        Some(8)
    } else if attempt == 4 {
        Some(16)
    } else {
        None
    }
}

/// What follows a failed attempt to put up the status icon.
#[derive(Debug, Clone, Copy, PartialEq, Eq, Structural)]
pub enum TrayRetry {
    /// Wait so many seconds, then make attempt `attempt`.
    RetryAfter { attempt: usize, delay_secs: u64 },
    /// The last attempt has failed: the daemon does not start.
    GiveUp { attempts: usize },
}

/// Decides what follows when attempt `attempt` (counted from 0) has failed.
pub fn after_tray_failure(attempt: usize) -> (next: TrayRetry)
    ensures
        next == (if attempt + 1 < TRAY_ATTEMPTS {
            TrayRetry::RetryAfter {
                attempt: (attempt + 1) as usize,
                delay_secs: tray_delay_secs(attempt + 1),
            }
        } else {
            TrayRetry::GiveUp { attempts: TRAY_ATTEMPTS }
        }),
{
    if attempt < TRAY_ATTEMPTS - 1 {
        match tray_retry_delay(attempt + 1) {
            Some(delay_secs) => TrayRetry::RetryAfter { attempt: attempt + 1, delay_secs },
            None => TrayRetry::GiveUp { attempts: TRAY_ATTEMPTS },
        }
    } else {
        TrayRetry::GiveUp { attempts: TRAY_ATTEMPTS }
    }
}

/// The delays before the attempts grow, and add up to thirty seconds.
pub proof fn lemma_tray_delays()
    ensures
        forall|a: int, b: int|
            0 <= a <= b < TRAY_ATTEMPTS ==> tray_delay_secs(a) <= tray_delay_secs(b),
        tray_delay_secs(0) + tray_delay_secs(1) + tray_delay_secs(2) + tray_delay_secs(3)
            + tray_delay_secs(4) == 30,
{
}

/// A call to the desktop shell's helper.
#[derive(Debug, Clone, Copy, PartialEq, Eq, Structural)]
pub enum ShellCall {
    FocusWindow,
    HideWindow,
}

/// The call to the shell's helper that goes with a broadcast command: a
/// shown window is focused, a hidden one is hidden by the shell too. The
/// other commands mean nothing to the shell.
pub fn shell_call_for(command: DaemonMessage) -> (call: Option<ShellCall>)
    ensures
        call == (match command {
            DaemonMessage::ShowWindow => Some(ShellCall::FocusWindow),
            DaemonMessage::HideWindow => Some(ShellCall::HideWindow),
            _ => None,
        }),
{
    match command {
        DaemonMessage::ShowWindow => Some(ShellCall::FocusWindow),
        DaemonMessage::HideWindow => Some(ShellCall::HideWindow),
        _ => None,
    }
}

} // verus!
