use castled::client::control::{
    close_message, control_step, registered_entrypoint, start_message, ControlAction,
};
use castled::helper::validate_register_req;
use castled::io::{
    finish_shutdown, finish_write, plan_write, StreamFailure, TrafficToServerWrapper, VecWrapper,
    WriteDataWrapper, WritePlan,
};
use castled::pb::control_command::Payload;
use castled::pb::traffic_to_server::Action;
use castled::pb::{tunnel, ControlCommand, InitPayload, RegisterReq, TcpConfig, Tunnel, WorkPayload};
use castled::status::Code;

#[test]
fn action_names_round_trip() {
    for action in [Action::Start, Action::Sending, Action::Finished, Action::Close] {
        assert_eq!(Action::from_str_name(action.as_str_name()), Some(action));
    }
    assert_eq!(Action::Start.as_str_name(), "Start");
    assert_eq!(Action::Close.as_str_name(), "Close");
    assert_eq!(Action::from_str_name("Sending"), Some(Action::Sending));
    assert_eq!(Action::from_str_name("sending"), None);
    assert_eq!(Action::from_str_name(""), None);
}

#[test]
fn action_codes_round_trip() {
    for action in [Action::Start, Action::Sending, Action::Finished, Action::Close] {
        assert_eq!(Action::from_i32(action.to_i32()), Some(action));
    }
    assert_eq!(Action::Finished.to_i32(), 2);
    assert_eq!(Action::from_i32(4), None);
    assert_eq!(Action::from_i32(-1), None);
}

#[test]
fn traffic_wrapper_carries_connection_and_data() {
    let wrapper = TrafficToServerWrapper::new("conn-1".to_string());
    let msg = wrapper.wrap_write(b"hello");
    assert_eq!(msg.connection_id, "conn-1");
    assert_eq!(msg.action, Action::Sending.to_i32());
    assert_eq!(msg.data, b"hello".to_vec());
    let end = wrapper.wrap_shutdown();
    assert_eq!(end.connection_id, "conn-1");
    assert_eq!(end.action, 2);
    assert!(end.data.is_empty());
}

#[test]
fn vec_wrapper_passes_bytes() {
    let wrapper = VecWrapper::<Vec<u8>>::new();
    assert_eq!(wrapper.wrap_write(&[1, 2, 3]), vec![1, 2, 3]);
    assert!(wrapper.wrap_shutdown().is_empty());
}

#[test]
fn stream_write_outcomes() {
    assert_eq!(plan_write(0), WritePlan::Nothing);
    assert_eq!(plan_write(5), WritePlan::Send);
    assert_eq!(finish_write(5, true, true), Ok(5));
    assert_eq!(finish_write(5, false, false), Ok(5));
    assert_eq!(finish_write(5, true, false), Err(StreamFailure::SendFailed));
    assert_eq!(finish_shutdown(true, true), Ok(()));
    assert_eq!(finish_shutdown(false, false), Err(StreamFailure::Closed));
    assert_eq!(finish_shutdown(true, false), Err(StreamFailure::SendFailed));
}

#[test]
fn validate_register_req_requires_tunnel_and_config() {
    let missing = validate_register_req(&RegisterReq { tunnel: None }).expect("refused");
    assert_eq!(missing.code, Code::InvalidArgument);
    assert_eq!(missing.message, "tunnel is required");

    let no_config = validate_register_req(&RegisterReq {
        tunnel: Some(Tunnel { name: "test".to_string(), ..Default::default() }),
    })
    .expect("refused");
    assert_eq!(no_config.code, Code::InvalidArgument);
    assert_eq!(no_config.message, "config is required");

    let ok = validate_register_req(&RegisterReq {
        tunnel: Some(Tunnel {
            name: "test".to_string(),
            config: Some(tunnel::Config::Tcp(TcpConfig { remote_port: 8080 })),
            ..Default::default()
        }),
    });
    assert!(ok.is_none());
}

#[test]
fn client_reads_the_registration_answer() {
    let init = ControlCommand {
        payload: Some(Payload::Init(InitPayload {
            tunnel_id: "t".to_string(),
            assigned_entrypoint: vec!["tcp://example.com:8080".to_string()],
        })),
    };
    assert_eq!(registered_entrypoint(init), Some(vec!["tcp://example.com:8080".to_string()]));
    let work = ControlCommand {
        payload: Some(Payload::Work(WorkPayload { connection_id: "c".to_string() })),
    };
    assert_eq!(registered_entrypoint(work), None);
    assert_eq!(registered_entrypoint(ControlCommand { payload: None }), None);
}

#[test]
fn client_handles_commands_after_registration() {
    let work = ControlCommand {
        payload: Some(Payload::Work(WorkPayload { connection_id: "c1".to_string() })),
    };
    assert_eq!(control_step(work), ControlAction::Work("c1".to_string()));
    let init = ControlCommand { payload: Some(Payload::Init(InitPayload::default())) };
    assert_eq!(control_step(init), ControlAction::Ignore);
    assert_eq!(control_step(ControlCommand { payload: None }), ControlAction::Fail);
}

#[test]
fn start_and_close_messages() {
    let start = start_message("c1".to_string());
    assert_eq!(start.action, 0);
    assert_eq!(start.connection_id, "c1");
    assert!(start.data.is_empty());
    let close = close_message("c1".to_string());
    assert_eq!(close.action, 3);
    assert!(close.data.is_empty());
}

#[test]
fn first_message_starts_or_closes() {
    let m = castled::client::control::first_message("c1".to_string(), true);
    assert_eq!((m.connection_id.as_str(), m.action, m.data.len()), ("c1", Action::Start.to_i32(), 0));
    let m = castled::client::control::first_message("c2".to_string(), false);
    assert_eq!((m.connection_id.as_str(), m.action, m.data.len()), ("c2", Action::Close.to_i32(), 0));
}
