//! The messages that client and server exchange over the control channel.
pub mod control_command;
pub mod traffic_to_server;
pub mod tunnel;

use vstd::prelude::*;

verus! {

/// ControlCommand is the command sent by the server to the client
/// which is used to notify the client to do something.
#[derive(Clone, Debug, PartialEq, Default)]
pub struct ControlCommand {
    pub payload: Option<control_command::Payload>,
}

/// InitPayload tells the client that its tunnel is registered.
#[derive(Clone, Debug, PartialEq, Default)]
pub struct InitPayload {
    pub tunnel_id: String,
    pub assigned_entrypoint: Vec<String>,
}

/// WorkPayload is sent when the server establishes a user connection.
#[derive(Clone, Debug, PartialEq, Default)]
pub struct WorkPayload {
    /// connection_id is the unique identifier of the connection which is assigned by the server.
    pub connection_id: String,
}

/// Traffic of one user connection, sent by the client to the server.
#[derive(Clone, Debug, PartialEq, Default)]
pub struct TrafficToServer {
    /// when the user connects to the remote_port, the server assigns a unique_id to this connection.
    pub connection_id: String,
    /// the encoded [`traffic_to_server::Action`] of this message.
    pub action: i32,
    /// data is the traffic data.
    pub data: Vec<u8>,
}

/// Traffic of one user connection, sent by the server to the client.
#[derive(Clone, Debug, PartialEq, Default)]
pub struct TrafficToClient {
    pub data: Vec<u8>,
}

/// The request with which a client registers a tunnel.
#[derive(Clone, Debug, PartialEq, Default)]
pub struct RegisterReq {
    pub tunnel: Option<Tunnel>,
}

/// Each tunnel is a bidirectional connection between the client and the server.
#[derive(Clone, Debug, PartialEq, Default)]
pub struct Tunnel {
    /// id is the unique identifier of the tunnel, it's assigned by the server.
    pub id: String,
    /// name is the name of the tunnel.
    pub name: String,
    pub config: Option<tunnel::Config>,
}

/// HttpConfig is used to tell the server how to create the http listener,
/// and how to route the request. The options are exclusive: a non-empty
/// domain wins over a subdomain, which wins over a random subdomain, which
/// wins over the remote port; with none of them the server picks a port.
#[derive(Clone, Debug, PartialEq, Default)]
pub struct HttpConfig {
    pub domain: String,
    pub subdomain: String,
    pub random_subdomain: bool,
    pub remote_port: i32,
}

/// Tcp tunnel options: a zero remote port asks for a random one.
#[derive(Clone, Debug, PartialEq, Default)]
pub struct TcpConfig {
    pub remote_port: i32,
}

/// Udp tunnel options: a zero remote port asks for a random one.
#[derive(Clone, Debug, PartialEq, Default)]
pub struct UdpConfig {
    pub remote_port: i32,
}

} // verus!
