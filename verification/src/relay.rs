//! The relay between the browser extension and the daemon.
//!
//! On the daemon's side each socket connection runs one loop over two kinds
//! of events: a frame has come in from the extension, or a command has come
//! off the broadcast channel. On the browser's side a short-lived companion
//! process copies frames between the browser's pipes and the socket. Here
//! are the decisions of both; the caller reads and writes.

use vstd::prelude::*;
use vstd::utf8::encode_utf8;
use crate::json::Json;
use crate::json::JsonValue;
use crate::json::json_of_text;
use crate::json::parse_json;
use crate::paths::join_path;
use crate::paths::joined;
use crate::text::decimal;
use crate::text::decimal_digits;
use crate::messaging::DaemonMessage;
use crate::messaging::ExtensionMessage;
use crate::messaging::bool_text;
use crate::messaging::inbound_of_json;
use crate::messaging::outbound_text;
use crate::messaging::string_member;
use crate::state::DaemonState;
use crate::state::Effect;
use crate::state::StateView;
use crate::state::effects_of;
use crate::state::operation_for;
use crate::state::operation_of;
use crate::state::state_after;
use crate::text::lemma_utf8_len_bound;
use crate::wire::MAX_MESSAGE_LEN;
use crate::wire::WireError;
use crate::wire::encode_frame;
use crate::wire::frame;
use crate::wire::framed;

verus! {

/// What the connection does after an event.
#[derive(Debug)]
pub enum ConnectionStep {
    /// Go on with the loop, after carrying out these effects.
    Continue { effects: Vec<Effect> },
    /// Write this frame to the connection, then go on.
    Write { frame: Vec<u8> },
    /// End the connection: with the error that broke it, or in good order.
    End { error: Option<WireError> },
}

/// The mathematical value of a [`ConnectionStep`].
pub enum ConnectionStepView {
    Continue { effects: Seq<Effect> },
    Write { frame: Seq<u8> },
    End { error: Option<WireError> },
}

impl View for ConnectionStep {
    type V = ConnectionStepView;

    open spec fn view(&self) -> ConnectionStepView {
        match self {
            ConnectionStep::Continue { effects } => ConnectionStepView::Continue {
                effects: effects@,
            },
            ConnectionStep::Write { frame } => ConnectionStepView::Write { frame: frame@ },
            ConnectionStep::End { error } => ConnectionStepView::End { error: *error },
        }
    }
}

/// The state after a JSON value has come in from the extension: a message
/// that reports something changes it, anything else leaves it alone.
pub open spec fn state_after_inbound(state: StateView, value: JsonValue) -> StateView {
    match inbound_of_json(value) {
        Some(message) => match operation_of(message) {
            Some(op) => state_after(state, op),
            None => state,
        },
        None => state,
    }
}

/// What the caller has to carry out after a JSON value has come in.
pub open spec fn effects_after_inbound(state: StateView, value: JsonValue) -> Seq<Effect> {
    match inbound_of_json(value) {
        Some(message) => match operation_of(message) {
            Some(op) => effects_of(state, op),
            None => Seq::empty(),
        },
        None => Seq::empty(),
    }
}

/// Takes in what reading the next inbound frame gave.
///
/// A frame that could not be read ends the connection with its error. A
/// value that is no message of the extension is passed over and the
/// connection goes on. A badge update overwrites the unread count, a window
/// report overwrites the visibility; the other messages change nothing.
pub fn on_inbound(state: &mut DaemonState, read: Result<Json, WireError>) -> (step:
    ConnectionStep)
    ensures
        match read {
            Err(e) => step@ == (ConnectionStepView::End { error: Some(e) }) && final(state)@
                == old(state)@,
            Ok(value) => step@ == (ConnectionStepView::Continue {
                effects: effects_after_inbound(old(state)@, value@),
            }) && final(state)@ == state_after_inbound(old(state)@, value@),
        },
{
    match read {
        Err(e) => ConnectionStep::End { error: Some(e) },
        Ok(value) => {
            let op = match ExtensionMessage::from_json(&value) {
                Some(message) => operation_for(&message),
                None => None,
            };
            match op {
                Some(op) => ConnectionStep::Continue { effects: state.apply(op) },
                None => ConnectionStep::Continue { effects: Vec::new() },
            }
        },
    }
}

/// What receiving from the broadcast channel gave.
#[derive(Debug, Clone, Copy, PartialEq, Eq, Structural)]
pub enum CommandEvent {
    /// The next command.
    Command { command: DaemonMessage },
    /// This subscriber fell behind and `skipped` commands were dropped for it.
    Lagged { skipped: u64 },
    /// The channel is closed.
    Closed,
}

/// The JSON text of every command fits in a frame.
pub proof fn lemma_command_fits(command: DaemonMessage)
    ensures
        encode_utf8(outbound_text(command)).len() <= MAX_MESSAGE_LEN,
{
    reveal_strlit("{\"type\":\"dnd_changed\",\"enabled\":");
    reveal_strlit("{\"type\":\"hide_window\"}");
    reveal_strlit("{\"type\":\"show_window\"}");
    reveal_strlit("{\"type\":\"ping\"}");
    reveal_strlit("{\"type\":\"titlebar_config\",\"show\":");
    reveal_strlit("}");
    reveal_strlit("true");
    reveal_strlit("false");
    assert(outbound_text(command).len() <= 64);
    lemma_utf8_len_bound(outbound_text(command));
}

/// The frame that carries `command` to the extension.
pub fn command_frame(command: DaemonMessage) -> (bytes: Vec<u8>)
    ensures
        bytes@ == frame(encode_utf8(outbound_text(command))),
{
    let text = command.to_json_string();
    proof {
        lemma_command_fits(command);
    }
    match encode_frame(text.as_str().as_bytes()) {
        Ok(bytes) => bytes,
        Err(_) => Vec::new(),
    }
}

/// Takes in what receiving from the broadcast channel gave: a command is
/// written to the connection as a frame; a lag is noted and the connection
/// goes on; a closed channel ends the connection in good order.
pub fn on_command(event: CommandEvent) -> (step: ConnectionStep)
    ensures
        step@ == (match event {
            CommandEvent::Command { command } => ConnectionStepView::Write {
                frame: frame(encode_utf8(outbound_text(command))),
            },
            CommandEvent::Lagged { .. } => ConnectionStepView::Continue { effects: Seq::empty() },
            CommandEvent::Closed => ConnectionStepView::End { error: None },
        }),
{
    match event {
        CommandEvent::Command { command } => ConnectionStep::Write { frame: command_frame(command) },
        CommandEvent::Lagged { .. } => ConnectionStep::Continue { effects: Vec::new() },
        CommandEvent::Closed => ConnectionStep::End { error: None },
    }
}

/// The frames that a connection writes for what it receives from the
/// broadcast channel, in order: one for each command, none for a lag.
pub open spec fn frames_written(events: Seq<CommandEvent>) -> Seq<Seq<u8>>
    decreases events.len(),
{
    if events.len() == 0 {
        Seq::empty()
    } else {
        let before = frames_written(events.drop_last());
        match events.last() {
            CommandEvent::Command { command } => before.push(
                frame(encode_utf8(outbound_text(command))),
            ),
            _ => before,
        }
    }
}

/// A connection that receives every command, none of them lost to a lag,
/// writes one frame for each, in the order in which they were sent.
pub proof fn lemma_every_command_is_written(commands: Seq<DaemonMessage>)
    ensures
        frames_written(commands.map_values(|c: DaemonMessage| CommandEvent::Command { command: c }))
            == commands.map_values(|c: DaemonMessage| frame(encode_utf8(outbound_text(c)))),
    decreases commands.len(),
{
    let events = commands.map_values(|c: DaemonMessage| CommandEvent::Command { command: c });
    let frames = commands.map_values(|c: DaemonMessage| frame(encode_utf8(outbound_text(c))));
    if commands.len() == 0 {
        assert(frames_written(events) =~= frames);
    } else {
        lemma_every_command_is_written(commands.drop_last());
        assert(events.drop_last() =~= commands.drop_last().map_values(
            |c: DaemonMessage| CommandEvent::Command { command: c },
        ));
        assert(frames_written(events) =~= frames);
    }
}

/// A lag writes nothing and does not end the connection: the frames written
/// are those of the commands that were received, as if the lag had not been.
pub proof fn lemma_lag_writes_nothing(before: Seq<CommandEvent>, skipped: u64)
    ensures
        frames_written(before.push(CommandEvent::Lagged { skipped })) == frames_written(before),
{
    assert(before.push(CommandEvent::Lagged { skipped }).drop_last() =~= before);
}

/// The text that is reported when the first message of the browser names no
/// service.
pub const NO_SERVICE_MESSAGE: &'static str = "First message must be 'ready' with a 'service' field";

/// The service that the first message of the browser names: its `service`
/// member, which must be a string. `None` for any other shape.
pub fn relay_service(first: &Json) -> (service: Option<String>)
    ensures
        match service {
            Some(name) => string_member(first@, "service"@) == Some(name@),
            None => string_member(first@, "service"@) is None,
        },
{
    match first.get("service") {
        Some(Json::Str(name)) => Some(name.clone()),
        _ => None,
    }
}

/// What the companion process forwards for a body that it has read: the
/// frame of the same bytes if they are JSON text, else the error that ends
/// the copying.
pub open spec fn forwarded(body: Seq<u8>) -> Result<Seq<u8>, WireError> {
    if json_of_text(body) is None {
        Err(WireError::MalformedJson)
    } else {
        framed(body)
    }
}

/// Decides what the companion process forwards for a body that it has read.
/// The bytes go on as they came; they are only looked at to see that they
/// are JSON.
pub fn relay_frame(body: &[u8]) -> (result: Result<Vec<u8>, WireError>)
    ensures
        match result {
            Ok(bytes) => forwarded(body@) == Ok::<Seq<u8>, WireError>(bytes@),
            Err(e) => forwarded(body@) == Err::<Seq<u8>, WireError>(e),
        },
{
    match parse_json(body) {
        None => Err(WireError::MalformedJson),
        Some(_) => encode_frame(body),
    }
}

/// The directory of the daemons' sockets: `loft` under the runtime
/// directory, which is the one that the environment gives, or
/// `/run/user/<uid>` where it gives none.
pub open spec fn socket_dir_text(runtime_dir: Option<Seq<char>>, uid: u32) -> Seq<char> {
    joined(
        match runtime_dir {
            Some(dir) => dir,
            None => "/run/user/"@ + decimal_digits(uid as nat),
        },
        "loft"@,
    )
}

/// The socket of a service: `<service>.sock` in the directory of the
/// sockets. The same service and the same user always give the same path.
pub open spec fn socket_path_text(
    service_name: Seq<char>,
    runtime_dir: Option<Seq<char>>,
    uid: u32,
) -> Seq<char> {
    joined(socket_dir_text(runtime_dir, uid), service_name + ".sock"@)
}

/// The directory of the daemons' sockets, for the runtime directory that the
/// environment gives, if any, and the user's id.
pub fn socket_dir(runtime_dir: Option<&str>, uid: u32) -> (dir: String)
    ensures
        dir@ == socket_dir_text(
            match runtime_dir {
                Some(d) => Some(d@),
                None => None,
            },
            uid,
        ),
{
    match runtime_dir {
        Some(dir) => join_path(dir, "loft"),
        None => {
            let mut base = String::from_str("/run/user/");
            let digits = decimal(uid as u64);
            base.append(digits.as_str());
            join_path(base.as_str(), "loft")
        },
    }
}

/// The socket of a service.
pub fn socket_path(service_name: &str, runtime_dir: Option<&str>, uid: u32) -> (path: String)
    ensures
        path@ == socket_path_text(
            service_name@,
            match runtime_dir {
                Some(d) => Some(d@),
                None => None,
            },
            uid,
        ),
{
    let dir = socket_dir(runtime_dir, uid);
    let mut file = String::from_str(service_name);
    file.append(".sock");
    join_path(dir.as_str(), file.as_str())
}

} // verus!
