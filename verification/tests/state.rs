use loft::control::{handle_call, ControlCall};
use loft::messaging::{DaemonMessage, ExtensionMessage};
use loft::relay::{on_inbound, ConnectionStep};
use loft::state::{operation_for, DaemonState, Effect, Operation, COMMAND_CHANNEL_DEPTH};

#[test]
fn a_new_state_is_hidden_and_empty() {
    let state = DaemonState::new(true, false);
    assert!(!state.is_visible());
    assert_eq!(state.get_badge_count(), 0);
    assert!(state.is_dnd());
    assert!(!state.is_quit_requested());
    assert!(!state.is_start_minimized());
    assert!(state.shows_titlebar());
    assert_eq!(state.supervised_pid(), None);
    assert_eq!(state.get_status(), (false, 0, true));
    assert!(DaemonState::new(false, true).is_start_minimized());
    assert_eq!(COMMAND_CHANNEL_DEPTH, 16);
}

#[test]
fn show_sets_visible_broadcasts_and_wakes() {
    let mut state = DaemonState::new(false, false);
    let effects = state.request_show();
    assert!(state.is_visible());
    assert_eq!(
        effects,
        vec![Effect::Broadcast { command: DaemonMessage::ShowWindow }, Effect::WakeShowWaiters]
    );
}

#[test]
fn hide_clears_visible_and_broadcasts() {
    let mut state = DaemonState::new(false, false);
    state.request_show();
    let effects = state.request_hide();
    assert!(!state.is_visible());
    assert_eq!(effects, vec![Effect::Broadcast { command: DaemonMessage::HideWindow }]);
}

#[test]
fn quit_without_a_process_only_wakes() {
    let mut state = DaemonState::new(false, false);
    let effects = state.request_quit();
    assert!(state.is_quit_requested());
    assert_eq!(effects, vec![Effect::WakeShowWaiters]);
}

#[test]
fn quit_with_a_process_terminates_it() {
    let mut state = DaemonState::new(false, false);
    state.apply(Operation::ProcessStarted { pid: Some(4242) });
    let effects = state.request_quit();
    assert!(state.is_quit_requested());
    assert_eq!(effects, vec![Effect::Terminate { pid: 4242 }, Effect::WakeShowWaiters]);
    assert_eq!(state.supervised_pid(), Some(4242));
}

#[test]
fn quit_once_requested_is_never_seen_false() {
    let later = [
        Operation::Show,
        Operation::Hide,
        Operation::Toggle,
        Operation::SetShowTitlebar { show: false },
        Operation::SetDnd { enabled: true },
        Operation::BadgeUpdate { count: 3 },
        Operation::WindowHidden,
        Operation::WindowShown,
        Operation::ProcessStarted { pid: Some(1) },
        Operation::ProcessExited,
        Operation::Quit,
    ];
    let mut state = DaemonState::new(false, true);
    state.apply(Operation::Quit);
    for op in later {
        state.apply(op);
        assert!(state.is_quit_requested(), "{:?}", op);
    }
}

#[test]
fn visibility_reflects_the_last_writer() {
    let writers = [
        (Operation::Show, true),
        (Operation::WindowHidden, false),
        (Operation::WindowShown, true),
        (Operation::Hide, false),
        (Operation::Hide, false),
        (Operation::WindowShown, true),
        (Operation::Show, true),
        (Operation::WindowHidden, false),
        (Operation::Show, true),
    ];
    let mut state = DaemonState::new(false, false);
    for (op, expected) in writers {
        state.apply(op);
        assert_eq!(state.get_status().0, expected, "{:?}", op);
    }
}

#[test]
fn start_minimized_turns_the_first_shown_report_into_a_hide() {
    let mut state = DaemonState::new(false, true);
    let effects = state.apply(Operation::WindowShown);
    assert!(!state.is_visible());
    assert!(!state.is_start_minimized());
    assert_eq!(effects, vec![Effect::Broadcast { command: DaemonMessage::HideWindow }]);
    let effects = state.apply(Operation::WindowShown);
    assert!(state.is_visible());
    assert!(effects.is_empty());
}

#[test]
fn toggle_goes_by_the_visibility_at_the_call() {
    let mut state = DaemonState::new(false, false);
    let reply = handle_call(&mut state, ControlCall::Toggle);
    assert!(state.is_visible());
    assert_eq!(
        reply.effects,
        vec![Effect::Broadcast { command: DaemonMessage::ShowWindow }, Effect::WakeShowWaiters]
    );
    let reply = handle_call(&mut state, ControlCall::Toggle);
    assert!(!state.is_visible());
    assert_eq!(reply.effects, vec![Effect::Broadcast { command: DaemonMessage::HideWindow }]);
    assert_eq!(reply.status, None);
}

#[test]
fn set_show_titlebar_broadcasts_and_persists() {
    let mut state = DaemonState::new(false, false);
    let reply = handle_call(&mut state, ControlCall::SetShowTitlebar { show: false });
    assert!(!state.shows_titlebar());
    assert_eq!(
        reply.effects,
        vec![
            Effect::Broadcast { command: DaemonMessage::TitlebarConfig { show: false } },
            Effect::PersistTitlebar { show: false },
        ]
    );
}

#[test]
fn get_status_reads_without_changing() {
    let mut state = DaemonState::new(true, false);
    state.apply(Operation::BadgeUpdate { count: 9 });
    state.apply(Operation::Show);
    let reply = handle_call(&mut state, ControlCall::GetStatus);
    assert_eq!(reply.status, Some((true, 9, true)));
    assert!(reply.effects.is_empty());
    assert_eq!(state.get_status(), (true, 9, true));
}

#[test]
fn set_dnd_only_changes_dnd() {
    let mut state = DaemonState::new(false, false);
    let effects = state.apply(Operation::SetDnd { enabled: true });
    assert!(effects.is_empty());
    assert_eq!(state.get_status(), (false, 0, true));
}

#[test]
fn process_events_record_and_forget_the_pid() {
    let mut state = DaemonState::new(false, false);
    state.apply(Operation::ProcessStarted { pid: Some(77) });
    assert!(state.is_visible());
    assert_eq!(state.supervised_pid(), Some(77));
    state.apply(Operation::ProcessExited);
    assert!(!state.is_visible());
    assert_eq!(state.supervised_pid(), None);
}

#[test]
fn only_reports_change_the_state() {
    assert_eq!(
        operation_for(&ExtensionMessage::BadgeUpdate { count: 2 }),
        Some(Operation::BadgeUpdate { count: 2 })
    );
    assert_eq!(operation_for(&ExtensionMessage::WindowHidden), Some(Operation::WindowHidden));
    assert_eq!(operation_for(&ExtensionMessage::WindowShown), Some(Operation::WindowShown));
    assert_eq!(operation_for(&ExtensionMessage::Ready { service: "x".to_string() }), None);
    assert_eq!(
        operation_for(&ExtensionMessage::Notification {
            title: "t".to_string(),
            body: "b".to_string(),
            icon: None
        }),
        None
    );
}

#[test]
fn badge_update_through_the_wire_sets_the_badge() {
    let framed = loft::wire::encode_frame(br#"{"type":"badge_update","count":5}"#).unwrap();
    let read = loft::wire::read_nm_message(&framed).map(|(value, _)| value);
    let mut state = DaemonState::new(false, false);
    let step = on_inbound(&mut state, read);
    assert!(matches!(step, ConnectionStep::Continue { ref effects } if effects.is_empty()));
    assert_eq!(state.get_badge_count(), 5);
    assert_eq!(state.get_status(), (false, 5, false));
}
