//! The state that one running daemon shares between its control interface,
//! its relay connections, its status icon and its process supervisor.
//!
//! Every change goes through [`DaemonState::apply`], which also says what the
//! caller has to carry out: commands to broadcast, waiters to wake, a signal
//! to send. Every field is level-triggered: it holds the current truth, and
//! the last writer wins.

use vstd::prelude::*;
use crate::messaging::DaemonMessage;
use crate::messaging::ExtensionMessage;
use crate::messaging::ExtensionMessageView;

verus! {

/// Depth of the broadcast channel that carries commands to the relay
/// connections: a subscriber that falls further behind loses the oldest.
pub const COMMAND_CHANNEL_DEPTH: usize = 16;

/// One change to the shared state.
#[derive(Debug, Clone, Copy, PartialEq, Eq, Structural)]
pub enum Operation {
    /// Present the window.
    Show,
    /// Hide the window.
    Hide,
    /// Show the window if it is hidden, hide it if it is shown.
    Toggle,
    /// Shut the daemon down.
    Quit,
    /// Show or hide the in-page title bar.
    SetShowTitlebar { show: bool },
    /// Turn do-not-disturb on or off.
    SetDnd { enabled: bool },
    /// The extension reports the unread count.
    BadgeUpdate { count: u32 },
    /// The extension reports that the window was hidden.
    WindowHidden,
    /// The extension reports that the window was shown.
    WindowShown,
    /// The supervisor has a browser process running.
    ProcessStarted { pid: Option<u32> },
    /// The supervised browser process has exited.
    ProcessExited,
}

/// What the caller of an operation has to carry out.
#[derive(Debug, Clone, Copy, PartialEq, Eq, Structural)]
pub enum Effect {
    /// Send this command to every relay connection.
    Broadcast { command: DaemonMessage },
    /// Wake whoever waits for the window to become visible. Nothing is kept
    /// for a later waiter.
    WakeShowWaiters,
    /// Send the termination signal to this process.
    Terminate { pid: u32 },
    /// Store the title bar preference in the service's configuration.
    PersistTitlebar { show: bool },
}

/// The mathematical value of a [`DaemonState`].
pub struct StateView {
    /// Whether the window is presented to the user.
    pub visible: bool,
    /// The unread count that the extension reported last.
    pub badge_count: u32,
    pub dnd: bool,
    /// Set once, never cleared.
    pub quit_requested: bool,
    /// Pending until the first report of a shown window, which it turns
    /// into a hidden one.
    pub start_minimized: bool,
    pub show_titlebar: bool,
    /// Present while a browser process runs.
    pub supervised_pid: Option<u32>,
}

/// The state after `op`.
pub open spec fn state_after(s: StateView, op: Operation) -> StateView {
    match op {
        Operation::Show => StateView { visible: true, ..s },
        Operation::Hide => StateView { visible: false, ..s },
        Operation::Toggle => StateView { visible: !s.visible, ..s },
        Operation::Quit => StateView { quit_requested: true, ..s },
        Operation::SetShowTitlebar { show } => StateView { show_titlebar: show, ..s },
        Operation::SetDnd { enabled } => StateView { dnd: enabled, ..s },
        Operation::BadgeUpdate { count } => StateView { badge_count: count, ..s },
        Operation::WindowHidden => StateView { visible: false, ..s },
        Operation::WindowShown => if s.start_minimized {
            StateView { visible: false, start_minimized: false, ..s }
        } else {
            StateView { visible: true, ..s }
        },
        Operation::ProcessStarted { pid } => StateView { visible: true, supervised_pid: pid, ..s },
        Operation::ProcessExited => StateView { visible: false, supervised_pid: None, ..s },
    }
}

/// What `op` asks the caller to carry out, in order.
pub open spec fn effects_of(s: StateView, op: Operation) -> Seq<Effect> {
    match op {
        Operation::Show => seq![
            Effect::Broadcast { command: DaemonMessage::ShowWindow },
            Effect::WakeShowWaiters,
        ],
        Operation::Hide => seq![Effect::Broadcast { command: DaemonMessage::HideWindow }],
        Operation::Toggle => if s.visible {
            seq![Effect::Broadcast { command: DaemonMessage::HideWindow }]
        } else {
            seq![Effect::Broadcast { command: DaemonMessage::ShowWindow }, Effect::WakeShowWaiters]
        },
        Operation::Quit => match s.supervised_pid {
            Some(pid) => seq![Effect::Terminate { pid }, Effect::WakeShowWaiters],
            None => seq![Effect::WakeShowWaiters],
        },
        Operation::SetShowTitlebar { show } => seq![
            Effect::Broadcast { command: DaemonMessage::TitlebarConfig { show } },
            Effect::PersistTitlebar { show },
        ],
        Operation::WindowShown => if s.start_minimized {
            seq![Effect::Broadcast { command: DaemonMessage::HideWindow }]
        } else {
            seq![]
        },
        _ => seq![],
    }
}

/// The state after each of `ops` in turn.
pub open spec fn state_after_all(s: StateView, ops: Seq<Operation>) -> StateView
    decreases ops.len(),
{
    if ops.len() == 0 {
        s
    } else {
        state_after(state_after_all(s, ops.drop_last()), ops.last())
    }
}

/// The change that a message of the extension makes to the state, if any.
pub open spec fn operation_of(message: ExtensionMessageView) -> Option<Operation> {
    match message {
        ExtensionMessageView::BadgeUpdate { count } => Some(Operation::BadgeUpdate { count }),
        ExtensionMessageView::WindowHidden => Some(Operation::WindowHidden),
        ExtensionMessageView::WindowShown => Some(Operation::WindowShown),
        ExtensionMessageView::Ready { .. } => None,
        ExtensionMessageView::Notification { .. } => None,
    }
}

/// The change that a message of the extension makes to the state: a badge
/// update and the two window reports change it, the others are only logged.
pub fn operation_for(message: &ExtensionMessage) -> (op: Option<Operation>)
    ensures
        op == operation_of(message@),
{
    match message {
        ExtensionMessage::BadgeUpdate { count } => Some(Operation::BadgeUpdate { count: *count }),
        ExtensionMessage::WindowHidden => Some(Operation::WindowHidden),
        ExtensionMessage::WindowShown => Some(Operation::WindowShown),
        ExtensionMessage::Ready { .. } => None,
        ExtensionMessage::Notification { .. } => None,
    }
}

/// The state of one running daemon.
pub struct DaemonState {
    visible: bool,
    badge_count: u32,
    dnd: bool,
    quit_requested: bool,
    start_minimized: bool,
    show_titlebar: bool,
    chrome_pid: Option<u32>,
}

impl View for DaemonState {
    type V = StateView;

    closed spec fn view(&self) -> StateView {
        StateView {
            visible: self.visible,
            badge_count: self.badge_count,
            dnd: self.dnd,
            quit_requested: self.quit_requested,
            start_minimized: self.start_minimized,
            show_titlebar: self.show_titlebar,
            supervised_pid: self.chrome_pid,
        }
    }
}

impl DaemonState {
    /// The state of a daemon that has just started: nothing visible, no
    /// unread items, no process, the title bar shown.
    pub fn new(dnd: bool, minimized: bool) -> (state: DaemonState)
        ensures
            state@ == (StateView {
                visible: false,
                badge_count: 0,
                dnd,
                quit_requested: false,
                start_minimized: minimized,
                show_titlebar: true,
                supervised_pid: None,
            }),
    {
        DaemonState {
            visible: false,
            badge_count: 0,
            dnd,
            quit_requested: false,
            start_minimized: minimized,
            show_titlebar: true,
            chrome_pid: None,
        }
    }

    pub fn is_visible(&self) -> (visible: bool)
        ensures
            visible == self@.visible,
    {
        self.visible
    }

    pub fn get_badge_count(&self) -> (count: u32)
        ensures
            count == self@.badge_count,
    {
        self.badge_count
    }

    pub fn is_dnd(&self) -> (dnd: bool)
        ensures
            dnd == self@.dnd,
    {
        self.dnd
    }

    pub fn is_quit_requested(&self) -> (quit: bool)
        ensures
            quit == self@.quit_requested,
    {
        self.quit_requested
    }

    pub fn is_start_minimized(&self) -> (pending: bool)
        ensures
            pending == self@.start_minimized,
    {
        self.start_minimized
    }

    pub fn shows_titlebar(&self) -> (show: bool)
        ensures
            show == self@.show_titlebar,
    {
        self.show_titlebar
    }

    /// The identifier of the browser process, while one runs.
    pub fn supervised_pid(&self) -> (pid: Option<u32>)
        ensures
            pid == self@.supervised_pid,
    {
        self.chrome_pid
    }

    /// What a status query answers: visibility, unread count, do-not-disturb.
    pub fn get_status(&self) -> (status: (bool, u32, bool))
        ensures
            status == (self@.visible, self@.badge_count, self@.dnd),
    {
        (self.visible, self.badge_count, self.dnd)
    }

    /// Makes one change and says what the caller has to carry out.
    pub fn apply(&mut self, op: Operation) -> (effects: Vec<Effect>)
        ensures
            final(self)@ == state_after(old(self)@, op),
            effects@ == effects_of(old(self)@, op),
    {
        let mut effects: Vec<Effect> = Vec::new();
        match op {
            Operation::Show => {
                self.visible = true;
                effects.push(Effect::Broadcast { command: DaemonMessage::ShowWindow });
                effects.push(Effect::WakeShowWaiters);
            },
            Operation::Hide => {
                self.visible = false;
                effects.push(Effect::Broadcast { command: DaemonMessage::HideWindow });
            },
            Operation::Toggle => {
                if self.visible {
                    self.visible = false;
                    effects.push(Effect::Broadcast { command: DaemonMessage::HideWindow });
                } else {
                    self.visible = true;
                    effects.push(Effect::Broadcast { command: DaemonMessage::ShowWindow });
                    effects.push(Effect::WakeShowWaiters);
                }
            },
            Operation::Quit => {
                self.quit_requested = true;
                match self.chrome_pid {
                    Some(pid) => {
                        effects.push(Effect::Terminate { pid });
                    },
                    None => {},
                }
                effects.push(Effect::WakeShowWaiters);
            },
            Operation::SetShowTitlebar { show } => {
                self.show_titlebar = show;
                effects.push(Effect::Broadcast { command: DaemonMessage::TitlebarConfig { show } });
                effects.push(Effect::PersistTitlebar { show });
            },
            Operation::SetDnd { enabled } => {
                self.dnd = enabled;
            },
            Operation::BadgeUpdate { count } => {
                self.badge_count = count;
            },
            Operation::WindowHidden => {
                self.visible = false;
            },
            Operation::WindowShown => {
                if self.start_minimized {
                    self.start_minimized = false;
                    self.visible = false;
                    effects.push(Effect::Broadcast { command: DaemonMessage::HideWindow });
                } else {
                    self.visible = true;
                }
            },
            Operation::ProcessStarted { pid } => {
                self.chrome_pid = pid;
                self.visible = true;
            },
            Operation::ProcessExited => {
                self.chrome_pid = None;
                self.visible = false;
            },
        }
        assert(effects@ =~= effects_of(old(self)@, op));
        effects
    }

    /// Presents the window: sets it visible, broadcasts `ShowWindow`, wakes
    /// the supervisor if it waits for this.
    pub fn request_show(&mut self) -> (effects: Vec<Effect>)
        ensures
            final(self)@ == (StateView { visible: true, ..old(self)@ }),
            effects@ == seq![
                Effect::Broadcast { command: DaemonMessage::ShowWindow },
                Effect::WakeShowWaiters,
            ],
    {
        self.apply(Operation::Show)
    }

    /// Hides the window: sets it hidden and broadcasts `HideWindow`.
    pub fn request_hide(&mut self) -> (effects: Vec<Effect>)
        ensures
            final(self)@ == (StateView { visible: false, ..old(self)@ }),
            effects@ == seq![Effect::Broadcast { command: DaemonMessage::HideWindow }],
    {
        self.apply(Operation::Hide)
    }

    /// Asks for shutdown: latches the quit flag, has the browser process
    /// terminated if one is recorded, wakes the supervisor if it waits.
    pub fn request_quit(&mut self) -> (effects: Vec<Effect>)
        ensures
            final(self)@ == (StateView { quit_requested: true, ..old(self)@ }),
            effects@ == (match old(self)@.supervised_pid {
                Some(pid) => seq![Effect::Terminate { pid }, Effect::WakeShowWaiters],
                None => seq![Effect::WakeShowWaiters],
            }),
    {
        self.apply(Operation::Quit)
    }
}

/// Once quit is requested it stays requested: no operation clears it.
pub proof fn lemma_quit_stays(s: StateView, op: Operation)
    requires
        s.quit_requested,
    ensures
        state_after(s, op).quit_requested,
{
}

/// Once quit is requested, it is seen as requested after every further
/// sequence of operations, whatever they are.
pub proof fn lemma_quit_is_monotonic(s: StateView, ops: Seq<Operation>)
    requires
        s.quit_requested,
    ensures
        state_after_all(s, ops).quit_requested,
    decreases ops.len(),
{
    if ops.len() > 0 {
        lemma_quit_is_monotonic(s, ops.drop_last());
    }
}

/// A quit request is seen from the moment it is made: after `before`, a
/// quit, and then `after`, the flag is set.
pub proof fn lemma_quit_is_seen(s: StateView, before: Seq<Operation>, after: Seq<Operation>)
    ensures
        state_after_all(s, before.push(Operation::Quit) + after).quit_requested,
    decreases after.len(),
{
    let all = before.push(Operation::Quit) + after;
    if after.len() == 0 {
        assert(all =~= before.push(Operation::Quit));
        assert(all.drop_last() =~= before);
    } else {
        assert(all.drop_last() =~= before.push(Operation::Quit) + after.drop_last());
        lemma_quit_is_seen(s, before, after.drop_last());
    }
}

/// Whether `op` is one of the four that say whether the window is visible:
/// the two calls of the control interface and the two reports of the
/// extension.
pub open spec fn writes_visibility(op: Operation) -> bool {
    op is Show || op is Hide || op is WindowShown || op is WindowHidden
}

/// What such an operation says of the window.
pub open spec fn visibility_written(op: Operation) -> bool {
    op is Show || op is WindowShown
}

/// The start-minimized hint is never set again: from a state in which it is
/// not pending, it is not pending after any operations.
pub proof fn lemma_hint_stays_cleared(s: StateView, ops: Seq<Operation>)
    requires
        !s.start_minimized,
    ensures
        !state_after_all(s, ops).start_minimized,
    decreases ops.len(),
{
    if ops.len() > 0 {
        lemma_hint_stays_cleared(s, ops.drop_last());
    }
}

/// Visibility reflects the last writer: after any operations at all, if the
/// last of them is a show or hide call or a window report, the window is
/// visible exactly if that one said so. The one exception is the report of a
/// shown window that meets the pending start-minimized hint, which the hint
/// turns into a hide.
pub proof fn lemma_visibility_reflects_last_writer(s: StateView, ops: Seq<Operation>)
    requires
        ops.len() > 0,
        writes_visibility(ops.last()),
        !(ops.last() is WindowShown && state_after_all(s, ops.drop_last()).start_minimized),
    ensures
        state_after_all(s, ops).visible == visibility_written(ops.last()),
{
}

/// Where the hint is pending, the report of a shown window leaves the window
/// hidden and uses the hint up.
pub proof fn lemma_hint_suppresses_the_first_shown_report(s: StateView, ops: Seq<Operation>)
    requires
        ops.len() > 0,
        ops.last() is WindowShown,
        state_after_all(s, ops.drop_last()).start_minimized,
    ensures
        !state_after_all(s, ops).visible,
        !state_after_all(s, ops).start_minimized,
{
}

} // verus!
