//! Decisions of the control server: what a registration asks of the data
//! server, what the client is told, and how the traffic of a user
//! connection is handled.
use vstd::prelude::*;

use crate::client::tunnel::{config_matches, requested_port, HttpRemoteConfig, RemoteConfig};
use crate::event::{ClientEventResponse, Payload};
use crate::ext::text::{lossy_text, utf8_lossy};
use crate::pb::control_command;
use crate::pb::traffic_to_server::{action_code, action_of_code, Action};
use crate::pb::{tunnel, ControlCommand, InitPayload, WorkPayload};
use crate::status::Status;

verus! {

/// The port of a registered tunnel config, cut to its low 16 bits.
pub open spec fn registered_port(c: tunnel::Config) -> u16 {
    match c {
        tunnel::Config::Tcp(t) => t.remote_port as u16,
        tunnel::Config::Udp(u) => u.remote_port as u16,
        tunnel::Config::Http(h) => h.remote_port as u16,
    }
}

/// The port that a registration asks the data server for.
pub open spec fn payload_port(p: Payload) -> u16 {
    match p {
        Payload::RegisterTcp { port } => port,
        Payload::RegisterUdp { port } => port,
        Payload::RegisterHttp { port, .. } => port,
    }
}

/// What a registered tunnel config asks of the data server. Ports arrive
/// as 32-bit numbers and are cut to their low 16 bits.
pub fn register_payload(config: &tunnel::Config) -> (r: Payload)
    ensures
        payload_port(r) == registered_port(*config),
        match *config {
            tunnel::Config::Tcp(t) => r == Payload::RegisterTcp { port: t.remote_port as u16 },
            tunnel::Config::Udp(u) => r == Payload::RegisterUdp { port: u.remote_port as u16 },
            tunnel::Config::Http(h) => r matches Payload::RegisterHttp {
                port,
                subdomain,
                domain,
                random_subdomain,
            } && port == h.remote_port as u16 && subdomain@ == h.subdomain@ && domain@
                == h.domain@ && random_subdomain == h.random_subdomain,
        },
{
    match config {
        tunnel::Config::Tcp(tcp) => Payload::RegisterTcp { port: tcp.remote_port as u16 },
        tunnel::Config::Http(http) => Payload::RegisterHttp {
            port: http.remote_port as u16,
            subdomain: http.subdomain.clone(),
            domain: http.domain.clone(),
            random_subdomain: http.random_subdomain,
        },
        tunnel::Config::Udp(udp) => Payload::RegisterUdp { port: udp.remote_port as u16 },
    }
}

/// The port that a client asks for reaches the data server unchanged: the
/// tunnel message carries it as a 32-bit number, and cutting that back to
/// 16 bits gives the same port.
pub proof fn lemma_requested_port_reaches_server(r: RemoteConfig, c: tunnel::Config)
    requires
        config_matches(r, c),
    ensures
        registered_port(c) == requested_port(r),
{
    match r {
        RemoteConfig::Tcp(p) => lemma_port_survives_wire(p),
        RemoteConfig::Udp(p) => lemma_port_survives_wire(p),
        RemoteConfig::Http(h) => match h {
            HttpRemoteConfig::Port(p) => lemma_port_survives_wire(p),
            _ => {},
        },
    }
}

/// A 16-bit port written as a 32-bit number reads back as the same port.
proof fn lemma_port_survives_wire(p: u16)
    ensures
        ((p as i32) as u16) == p,
{
    assert(((p as i32) as u16) == p) by (bit_vector);
}

/// What the client is told about its registration: the init command with
/// the tunnel's id and entrypoints, or the status it failed with.
pub fn registration_reply(response: ClientEventResponse, tunnel_id: String) -> (r: Result<
    ControlCommand,
    Status,
>)
    ensures
        match response {
            ClientEventResponse::Registered { status, entrypoint } => match status {
                None => r matches Ok(c) && c.payload matches Some(
                    control_command::Payload::Init(init),
                ) && init.tunnel_id == tunnel_id && init.assigned_entrypoint == entrypoint,
                Some(s) => r == Err::<ControlCommand, Status>(s),
            },
        },
{
    match response {
        ClientEventResponse::Registered { status, entrypoint } => match status {
            None => Ok(
                ControlCommand {
                    payload: Some(
                        control_command::Payload::Init(
                            InitPayload { tunnel_id, assigned_entrypoint: entrypoint },
                        ),
                    ),
                },
            ),
            Some(status) => Err(status),
        },
    }
}

/// The command that tells the client a user connected, with the id of the
/// connection written out as text.
pub fn work_command(connection_id: &[u8]) -> (r: ControlCommand)
    ensures
        r.payload matches Some(control_command::Payload::Work(w)) && w.connection_id@ == lossy_text(
            connection_id@,
        ) && (vstd::utf8::valid_utf8(connection_id@) ==> w.connection_id@
            == vstd::utf8::decode_utf8(connection_id@)),
{
    ControlCommand {
        payload: Some(
            control_command::Payload::Work(WorkPayload { connection_id: utf8_lossy(connection_id) }),
        ),
    }
}

/// What the control server does with a message of a user connection's
/// traffic.
#[derive(Debug)]
pub enum DataAction {
    /// Start streaming the server's traffic to the client.
    Start,
    /// Pass the client's bytes on to the user.
    Forward(Vec<u8>),
    /// The client finished: pass on the end of the data and stop reading.
    Finish,
    /// The client gave up on the connection: close it and stop reading.
    Close,
    /// A second start: stop reading.
    DuplicateStart,
    /// A message whose action is unknown: close the connection, keep reading.
    InvalidAction,
}

/// Whether a stream has started after a message with the wire action
/// `action`.
pub open spec fn started_after(started: bool, action: int) -> bool {
    started || action_of_code(action) == Some(Action::Start)
}

/// What a step on a traffic stream decides, as plain values.
pub ghost enum DataStep {
    Start,
    Forward(Seq<u8>),
    Finish,
    Close,
    DuplicateStart,
    InvalidAction,
}

/// A decision as plain values.
pub open spec fn data_step_view(r: DataAction) -> DataStep {
    match r {
        DataAction::Start => DataStep::Start,
        DataAction::Forward(d) => DataStep::Forward(d@),
        DataAction::Finish => DataStep::Finish,
        DataAction::Close => DataStep::Close,
        DataAction::DuplicateStart => DataStep::DuplicateStart,
        DataAction::InvalidAction => DataStep::InvalidAction,
    }
}

/// One step on a traffic stream: whether it has started after a message of
/// `action` and `data`, and what is done with the message.
pub open spec fn data_step_spec(started: bool, action: int, data: Seq<u8>) -> (bool, DataStep) {
    (
        started_after(started, action),
        match action_of_code(action) {
            Some(Action::Start) => if started {
                DataStep::DuplicateStart
            } else {
                DataStep::Start
            },
            Some(Action::Sending) => DataStep::Forward(data),
            Some(Action::Finished) => DataStep::Finish,
            Some(Action::Close) => DataStep::Close,
            None => DataStep::InvalidAction,
        },
    )
}

/// The decision ends the stream.
pub open spec fn ends_stream(d: DataStep) -> bool {
    d is Finish || d is Close || d is DuplicateStart
}

/// The decisions on the messages `(action, data)` of a stream, in order, up
/// to and including the one that ends it.
pub open spec fn data_run(started: bool, msgs: Seq<(int, Seq<u8>)>) -> Seq<DataStep>
    decreases msgs.len(),
{
    if msgs.len() == 0 {
        Seq::empty()
    } else {
        let (next, d) = data_step_spec(started, msgs[0].0, msgs[0].1);
        if ends_stream(d) {
            seq![d]
        } else {
            seq![d] + data_run(next, msgs.drop_first())
        }
    }
}

/// The messages that carry `datas`, one `Sending` message each.
pub open spec fn sending_msgs(datas: Seq<Seq<u8>>) -> Seq<(int, Seq<u8>)> {
    datas.map_values(|d: Seq<u8>| (action_code(Action::Sending), d))
}

/// A started stream of `Sending` messages and then a `Finished` one
/// forwards the data in order and then finishes; what follows is not read.
proof fn lemma_started_run(datas: Seq<Seq<u8>>, end: Seq<u8>, rest: Seq<(int, Seq<u8>)>)
    ensures
        data_run(true, sending_msgs(datas) + seq![(action_code(Action::Finished), end)] + rest)
            == datas.map_values(|d: Seq<u8>| DataStep::Forward(d)) + seq![DataStep::Finish],
    decreases datas.len(),
{
    let msgs = sending_msgs(datas) + seq![(action_code(Action::Finished), end)] + rest;
    if datas.len() == 0 {
        assert(msgs[0] == (action_code(Action::Finished), end));
        assert(datas.map_values(|d: Seq<u8>| DataStep::Forward(d)) + seq![DataStep::Finish]
            =~= seq![DataStep::Finish]);
    } else {
        let tail = datas.drop_first();
        assert(msgs[0] == (action_code(Action::Sending), datas[0]));
        assert(msgs.drop_first() =~= sending_msgs(tail) + seq![(action_code(Action::Finished), end)]
            + rest);
        lemma_started_run(tail, end, rest);
        assert(datas.map_values(|d: Seq<u8>| DataStep::Forward(d)) + seq![DataStep::Finish]
            =~= seq![DataStep::Forward(datas[0])] + (tail.map_values(
            |d: Seq<u8>| DataStep::Forward(d),
        ) + seq![DataStep::Finish]));
    }
}

/// A stream that sends `Start`, then `Sending` messages, then `Finished`
/// is handled in that order: the stream starts once, every piece of data is
/// forwarded in the order sent, and the stream finishes, after which nothing
/// more is read.
pub proof fn lemma_stream_forwards_in_order(
    start: Seq<u8>,
    datas: Seq<Seq<u8>>,
    end: Seq<u8>,
    rest: Seq<(int, Seq<u8>)>,
)
    ensures
        data_run(
            false,
            seq![(action_code(Action::Start), start)] + sending_msgs(datas) + seq![
                (action_code(Action::Finished), end),
            ] + rest,
        ) == seq![DataStep::Start] + datas.map_values(|d: Seq<u8>| DataStep::Forward(d)) + seq![
            DataStep::Finish,
        ],
{
    let msgs = seq![(action_code(Action::Start), start)] + sending_msgs(datas) + seq![
        (action_code(Action::Finished), end),
    ] + rest;
    assert(msgs[0] == (action_code(Action::Start), start));
    assert(msgs.drop_first() =~= sending_msgs(datas) + seq![(action_code(Action::Finished), end)]
        + rest);
    lemma_started_run(datas, end, rest);
    assert(seq![DataStep::Start] + datas.map_values(|d: Seq<u8>| DataStep::Forward(d)) + seq![
        DataStep::Finish,
    ] =~= seq![DataStep::Start] + (datas.map_values(|d: Seq<u8>| DataStep::Forward(d)) + seq![
        DataStep::Finish,
    ]));
}

/// What to do with a message of `action` and `data` on a traffic stream;
/// `stream_started` records whether the stream started.
pub fn data_stream_step(stream_started: &mut bool, action: i32, data: Vec<u8>) -> (r: DataAction)
    ensures
        (*final(stream_started), data_step_view(r)) == data_step_spec(
            *old(stream_started),
            action as int,
            data@,
        ),
        *final(stream_started) == started_after(*old(stream_started), action as int),
        match action_of_code(action as int) {
            Some(Action::Start) => if *old(stream_started) {
                r is DuplicateStart
            } else {
                r is Start
            },
            Some(Action::Sending) => r matches DataAction::Forward(d) && d == data,
            Some(Action::Finished) => r is Finish,
            Some(Action::Close) => r is Close,
            None => r is InvalidAction,
        },
{
    match Action::from_i32(action) {
        Some(Action::Start) => {
            if *stream_started {
                DataAction::DuplicateStart
            } else {
                *stream_started = true;
                DataAction::Start
            }
        },
        Some(Action::Sending) => DataAction::Forward(data),
        Some(Action::Finished) => DataAction::Finish,
        Some(Action::Close) => DataAction::Close,
        None => DataAction::InvalidAction,
    }
}

/// A stream starts at most once: once started it stays started, and every
/// later start is refused.
pub proof fn lemma_stream_starts_once(started: bool, action: int, later: int)
    ensures
        started ==> started_after(started, action),
        started_after(started, action) && action_of_code(later) == Some(Action::Start)
            ==> started_after(started_after(started, action), later),
{
}

} // verus!
