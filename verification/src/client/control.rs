//! Decisions of the client while a tunnel runs: reading the server's
//! commands, and the messages that open and close a user connection.
use vstd::prelude::*;

use crate::pb::control_command::Payload;
use crate::pb::traffic_to_server::{action_code, Action};
use crate::pb::{ControlCommand, TrafficToServer};

verus! {

/// The first command the server sends is the answer to the registration:
/// an init command gives the entrypoints of the tunnel; anything else means
/// that the registration failed.
pub fn registered_entrypoint(command: ControlCommand) -> (r: Option<Vec<String>>)
    ensures
        command.payload matches Some(Payload::Init(init)) ==> r == Some(init.assigned_entrypoint),
        !(command.payload matches Some(Payload::Init(_))) ==> r is None,
{
    match command.payload {
        Some(Payload::Init(init)) => Some(init.assigned_entrypoint),
        Some(Payload::Work(_)) => None,
        None => None,
    }
}

/// What the client does with a command that comes after the registration.
#[derive(Debug, PartialEq, Eq)]
pub enum ControlAction {
    /// A repeated init command: it is logged and dropped.
    Ignore,
    /// A user connected: forward its traffic over the connection with this id.
    Work(String),
    /// A command without payload: the tunnel fails.
    Fail,
}

/// What to do with a command that comes after the registration.
pub fn control_step(command: ControlCommand) -> (r: ControlAction)
    ensures
        command.payload matches Some(Payload::Init(_)) ==> r == ControlAction::Ignore,
        command.payload matches Some(Payload::Work(w)) ==> r == ControlAction::Work(w.connection_id),
        command.payload is None ==> r == ControlAction::Fail,
{
    match command.payload {
        Some(Payload::Init(_)) => ControlAction::Ignore,
        Some(Payload::Work(work)) => ControlAction::Work(work.connection_id),
        None => ControlAction::Fail,
    }
}

/// The first message of a user connection, once the local endpoint is
/// reached: it starts the stream, without data.
pub fn start_message(connection_id: String) -> (r: TrafficToServer)
    ensures
        r.connection_id == connection_id,
        r.action == action_code(Action::Start),
        r.data@.len() == 0,
{
    TrafficToServer { connection_id, action: Action::Start.to_i32(), data: Vec::new() }
}

/// The message that asks the server to close a user connection, when the
/// local endpoint cannot be reached.
pub fn close_message(connection_id: String) -> (r: TrafficToServer)
    ensures
        r.connection_id == connection_id,
        r.action == action_code(Action::Close),
        r.data@.len() == 0,
{
    TrafficToServer { connection_id, action: Action::Close.to_i32(), data: Vec::new() }
}

/// The first message about a user connection once the client tried to
/// reach its local endpoint: a start when it was reached, else a close.
pub fn first_message(connection_id: String, reached: bool) -> (r: TrafficToServer)
    ensures
        r.connection_id == connection_id,
        r.action == action_code(if reached { Action::Start } else { Action::Close }),
        r.data@.len() == 0,
{
    if reached {
        start_message(connection_id)
    } else {
        close_message(connection_id)
    }
}

} // verus!
