use loft::daemon::{
    after_tray_failure, shell_call_for, startup_action, tray_retry_delay, ShellCall,
    SingletonCheck, StartupAction, TrayRetry, TRAY_ATTEMPTS,
};
use loft::messaging::DaemonMessage;
use loft::state::{DaemonState, Effect};
use loft::supervisor::{Phase, RunOutcome, Supervisor, SupervisorAction, SupervisorEvent};

#[test]
fn supervisor_starts_by_spawning() {
    let supervisor = Supervisor::new();
    assert_eq!(supervisor.phase(), Phase::Spawning);
    assert_eq!(supervisor.action(), SupervisorAction::Spawn);
}

#[test]
fn spawn_run_exit_wait_respawn() {
    let mut state = DaemonState::new(false, false);
    let mut supervisor = Supervisor::new();

    let action = supervisor.on_event(&mut state, SupervisorEvent::Spawned { pid: Some(10) });
    assert_eq!(action, SupervisorAction::WaitForExit);
    assert_eq!(supervisor.phase(), Phase::Running);
    assert!(state.is_visible());
    assert_eq!(state.supervised_pid(), Some(10));

    let action = supervisor.on_event(&mut state, SupervisorEvent::Exited);
    assert_eq!(action, SupervisorAction::WaitForShow);
    assert_eq!(supervisor.phase(), Phase::WaitingForShow);
    assert!(!state.is_visible());
    assert_eq!(state.supervised_pid(), None);

    state.request_show();
    let action = supervisor.on_event(&mut state, SupervisorEvent::Woken);
    assert_eq!(action, SupervisorAction::Spawn);
    assert_eq!(supervisor.phase(), Phase::Spawning);

    let action = supervisor.on_event(&mut state, SupervisorEvent::Spawned { pid: Some(11) });
    assert_eq!(action, SupervisorAction::WaitForExit);
    assert_eq!(state.supervised_pid(), Some(11));
}

#[test]
fn show_while_waiting_resumes_the_supervisor_exactly_once() {
    let mut state = DaemonState::new(false, false);
    let mut supervisor = Supervisor::new();
    supervisor.on_event(&mut state, SupervisorEvent::Spawned { pid: Some(10) });
    supervisor.on_event(&mut state, SupervisorEvent::Exited);
    assert_eq!(supervisor.action(), SupervisorAction::WaitForShow);
    assert_eq!(state.supervised_pid(), None);
    assert!(!state.is_quit_requested());

    let effects = state.request_show();
    let wakes = effects.iter().filter(|e| **e == Effect::WakeShowWaiters).count();
    assert_eq!(wakes, 1);

    let action = supervisor.on_event(&mut state, SupervisorEvent::Woken);
    assert_eq!(action, SupervisorAction::Spawn);
    assert_eq!(supervisor.phase(), Phase::Spawning);
    let again = supervisor.on_event(&mut state, SupervisorEvent::Woken);
    assert_eq!(again, SupervisorAction::Spawn);
    assert_eq!(supervisor.phase(), Phase::Spawning);
}

#[test]
fn quit_while_running_ends_after_the_exit() {
    let mut state = DaemonState::new(false, false);
    let mut supervisor = Supervisor::new();
    supervisor.on_event(&mut state, SupervisorEvent::Spawned { pid: Some(10) });
    assert_eq!(
        state.request_quit(),
        vec![Effect::Terminate { pid: 10 }, Effect::WakeShowWaiters]
    );
    assert_eq!(supervisor.phase(), Phase::Running);
    let action = supervisor.on_event(&mut state, SupervisorEvent::Exited);
    assert_eq!(action, SupervisorAction::Finish { outcome: RunOutcome::Quit });
    assert_eq!(supervisor.phase(), Phase::Terminated { outcome: RunOutcome::Quit });
    assert_eq!(state.supervised_pid(), None);
    assert!(!state.is_visible());
}

#[test]
fn quit_while_waiting_ends_at_the_wake() {
    let mut state = DaemonState::new(false, false);
    let mut supervisor = Supervisor::new();
    supervisor.on_event(&mut state, SupervisorEvent::Spawned { pid: None });
    supervisor.on_event(&mut state, SupervisorEvent::Exited);
    assert_eq!(state.request_quit(), vec![Effect::WakeShowWaiters]);
    let action = supervisor.on_event(&mut state, SupervisorEvent::Woken);
    assert_eq!(action, SupervisorAction::Finish { outcome: RunOutcome::Quit });
}

#[test]
fn failures_end_the_loop() {
    let mut state = DaemonState::new(false, false);
    let mut supervisor = Supervisor::new();
    let action = supervisor.on_event(&mut state, SupervisorEvent::SpawnFailed);
    assert_eq!(action, SupervisorAction::Finish { outcome: RunOutcome::SpawnFailed });
    assert!(!state.is_visible());

    let mut supervisor = Supervisor::new();
    supervisor.on_event(&mut state, SupervisorEvent::Spawned { pid: Some(5) });
    let action = supervisor.on_event(&mut state, SupervisorEvent::WaitFailed);
    assert_eq!(action, SupervisorAction::Finish { outcome: RunOutcome::WaitFailed });
    assert_eq!(state.supervised_pid(), Some(5));
}

#[test]
fn terminated_is_final() {
    let mut state = DaemonState::new(false, false);
    let mut supervisor = Supervisor::new();
    supervisor.on_event(&mut state, SupervisorEvent::SpawnFailed);
    for event in [
        SupervisorEvent::Spawned { pid: Some(1) },
        SupervisorEvent::SpawnFailed,
        SupervisorEvent::Exited,
        SupervisorEvent::WaitFailed,
        SupervisorEvent::Woken,
    ] {
        let action = supervisor.on_event(&mut state, event);
        assert_eq!(action, SupervisorAction::Finish { outcome: RunOutcome::SpawnFailed });
        assert_eq!(state.get_status(), (false, 0, false));
        assert_eq!(state.supervised_pid(), None);
    }
}

#[test]
fn events_of_another_phase_change_nothing() {
    let mut state = DaemonState::new(false, false);
    let mut supervisor = Supervisor::new();
    assert_eq!(supervisor.on_event(&mut state, SupervisorEvent::Exited), SupervisorAction::Spawn);
    assert_eq!(supervisor.on_event(&mut state, SupervisorEvent::Woken), SupervisorAction::Spawn);
    assert!(!state.is_visible());
    supervisor.on_event(&mut state, SupervisorEvent::Spawned { pid: Some(1) });
    assert_eq!(
        supervisor.on_event(&mut state, SupervisorEvent::Spawned { pid: Some(2) }),
        SupervisorAction::WaitForExit
    );
    assert_eq!(state.supervised_pid(), Some(1));
}

#[test]
fn singleton_check_decides_the_start() {
    assert_eq!(startup_action(SingletonCheck::AlreadyRunning), StartupAction::ForwardShow);
    assert_eq!(startup_action(SingletonCheck::NotRunning), StartupAction::StartDaemon);
    assert_eq!(startup_action(SingletonCheck::Unknown), StartupAction::StartDaemon);
}

#[test]
fn tray_is_retried_with_growing_delays() {
    let delays: Vec<Option<u64>> = (0..6).map(tray_retry_delay).collect();
    assert_eq!(delays, vec![Some(0), Some(2), Some(4), Some(8), Some(16), None]);
    assert_eq!(TRAY_ATTEMPTS, 5);
    assert_eq!(after_tray_failure(0), TrayRetry::RetryAfter { attempt: 1, delay_secs: 2 });
    assert_eq!(after_tray_failure(3), TrayRetry::RetryAfter { attempt: 4, delay_secs: 16 });
    assert_eq!(after_tray_failure(4), TrayRetry::GiveUp { attempts: 5 });
    assert_eq!(after_tray_failure(usize::MAX), TrayRetry::GiveUp { attempts: 5 });
}

#[test]
fn shell_helper_follows_show_and_hide_only() {
    assert_eq!(shell_call_for(DaemonMessage::ShowWindow), Some(ShellCall::FocusWindow));
    assert_eq!(shell_call_for(DaemonMessage::HideWindow), Some(ShellCall::HideWindow));
    assert_eq!(shell_call_for(DaemonMessage::Ping), None);
    assert_eq!(shell_call_for(DaemonMessage::DndChanged { enabled: true }), None);
    assert_eq!(shell_call_for(DaemonMessage::TitlebarConfig { show: true }), None);
}
