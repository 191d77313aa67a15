use castled::client::tunnel::{HttpRemoteConfig, RemoteConfig};
use castled::event::{ClientEventResponse, Payload};
use castled::pb::control_command;
use castled::pb::traffic_to_server::Action;
use castled::pb::tunnel;
use castled::pb::{HttpConfig, RegisterReq, TcpConfig, Tunnel};
use castled::server::bus::{bus_register_http, bus_register_request, bus_stream_ends, BusPayload, BusRoute, TunnelKind};
use castled::server::config::EntrypointConfig;
use castled::server::control::{
    data_stream_step, register_payload, registration_reply, work_command, DataAction,
};
use castled::server::data::{
    charset_char, discard_port, next_random_port, reserve_port, DataServer, HttpRoute, MAX_PORT_ATTEMPTS,
};
use castled::server::port::PortManager;
use castled::server::registry::{first_label_of, DynamicRegistry, FixedRegistry, LookupRequest};
use castled::socket::{map_bind_error, BindErrorKind};
use castled::status::{Code, Status};

fn payload_of(config: &RemoteConfig) -> Payload {
    let pb = config.to_pb_tunnel("test");
    register_payload(pb.config.as_ref().unwrap())
}

fn entrypoints(cfg: &EntrypointConfig, config: RemoteConfig) -> Vec<String> {
    let payload = payload_of(&config);
    let port = match &payload {
        Payload::RegisterTcp { port } | Payload::RegisterUdp { port } => *port,
        Payload::RegisterHttp { port, .. } => *port,
    };
    cfg.make_entrypoint(&payload, port)
}

#[test]
fn test_assigned_entrypoint() {
    let default = EntrypointConfig::default();
    assert_eq!(entrypoints(&default, RemoteConfig::Tcp(8080)), Vec::<String>::new());
    assert_eq!(entrypoints(&default, RemoteConfig::Udp(8080)), Vec::<String>::new());
    assert_eq!(
        entrypoints(&default, RemoteConfig::Http(HttpRemoteConfig::RandomPort)),
        Vec::<String>::new()
    );

    let with_domain = EntrypointConfig { domain: vec!["example.com".to_string()], ..Default::default() };
    assert_eq!(entrypoints(&with_domain, RemoteConfig::Tcp(8080)), vec!["tcp://example.com:8080"]);
    assert_eq!(entrypoints(&with_domain, RemoteConfig::Udp(8080)), vec!["udp://example.com:8080"]);
    assert_eq!(
        entrypoints(&with_domain, RemoteConfig::Http(HttpRemoteConfig::Port(9999))),
        vec!["http://example.com:9999"]
    );
    assert_eq!(
        entrypoints(&with_domain, RemoteConfig::Http(HttpRemoteConfig::Domain("mydomain.com"))),
        vec!["http://mydomain.com"]
    );
    assert_eq!(
        entrypoints(&with_domain, RemoteConfig::Http(HttpRemoteConfig::Subdomain("foo"))),
        vec!["http://foo.example.com"]
    );

    let with_ip = EntrypointConfig { ip: vec!["127.0.0.1".to_string()], ..Default::default() };
    assert_eq!(entrypoints(&with_ip, RemoteConfig::Tcp(8080)), vec!["tcp://127.0.0.1:8080"]);
    assert_eq!(entrypoints(&with_ip, RemoteConfig::Udp(8080)), vec!["udp://127.0.0.1:8080"]);
    assert_eq!(
        entrypoints(&with_ip, RemoteConfig::Http(HttpRemoteConfig::Port(9999))),
        vec!["http://127.0.0.1:9999"]
    );
    assert_eq!(
        entrypoints(&with_ip, RemoteConfig::Http(HttpRemoteConfig::Domain("mydomain.com"))),
        vec!["http://mydomain.com"]
    );
    assert_eq!(
        entrypoints(&with_ip, RemoteConfig::Http(HttpRemoteConfig::Subdomain("foo"))),
        Vec::<String>::new()
    );

    let full = EntrypointConfig {
        domain: vec!["example.com".to_string(), "foo.example.com".to_string()],
        ip: vec!["127.0.0.1".to_string()],
        vhttp_behind_proxy_tls: true,
        ..Default::default()
    };
    assert_eq!(
        entrypoints(&full, RemoteConfig::Tcp(8080)),
        vec!["tcp://127.0.0.1:8080", "tcp://example.com:8080", "tcp://foo.example.com:8080"]
    );
    assert_eq!(
        entrypoints(&full, RemoteConfig::Udp(8080)),
        vec!["udp://127.0.0.1:8080", "udp://example.com:8080", "udp://foo.example.com:8080"]
    );
    assert_eq!(
        entrypoints(&full, RemoteConfig::Http(HttpRemoteConfig::Port(9999))),
        vec!["http://127.0.0.1:9999", "http://example.com:9999", "http://foo.example.com:9999"]
    );
    assert_eq!(
        entrypoints(&full, RemoteConfig::Http(HttpRemoteConfig::Domain("mydomain.com"))),
        vec!["https://mydomain.com"]
    );
    assert_eq!(
        entrypoints(&full, RemoteConfig::Http(HttpRemoteConfig::Subdomain("bar"))),
        vec!["https://bar.example.com", "https://bar.foo.example.com"]
    );
}

#[test]
fn entrypoint_ports_are_written_in_decimal() {
    let cfg = EntrypointConfig { domain: vec!["d".to_string()], ..Default::default() };
    let payload = Payload::RegisterTcp { port: 0 };
    assert_eq!(cfg.make_entrypoint(&payload, 0), vec!["tcp://d:0"]);
    assert_eq!(cfg.make_entrypoint(&payload, 7), vec!["tcp://d:7"]);
    assert_eq!(cfg.make_entrypoint(&payload, 10), vec!["tcp://d:10"]);
    assert_eq!(cfg.make_entrypoint(&payload, 65535), vec!["tcp://d:65535"]);
}

#[test]
fn http_configs_set_one_option() {
    let c = HttpRemoteConfig::Domain("example.com").get_http_config();
    assert_eq!((c.domain.as_str(), c.subdomain.as_str(), c.random_subdomain, c.remote_port), ("example.com", "", false, 0));
    let c = HttpRemoteConfig::Subdomain("foo").get_http_config();
    assert_eq!((c.domain.as_str(), c.subdomain.as_str(), c.random_subdomain, c.remote_port), ("", "foo", false, 0));
    let c = HttpRemoteConfig::RandomSubdomain.get_http_config();
    assert_eq!((c.domain.as_str(), c.subdomain.as_str(), c.random_subdomain, c.remote_port), ("", "", true, 0));
    let c = HttpRemoteConfig::Port(9999).get_http_config();
    assert_eq!((c.domain.as_str(), c.subdomain.as_str(), c.random_subdomain, c.remote_port), ("", "", false, 9999));
    let c = HttpRemoteConfig::RandomPort.get_http_config();
    assert_eq!((c.domain.as_str(), c.subdomain.as_str(), c.random_subdomain, c.remote_port), ("", "", false, 0));
}

#[test]
fn tunnel_message_names_the_tunnel() {
    let t = RemoteConfig::Udp(5353).to_pb_tunnel("dns");
    assert_eq!(t.name, "dns");
    assert_eq!(t.id, "");
    match t.config {
        Some(tunnel::Config::Udp(u)) => assert_eq!(u.remote_port, 5353),
        other => panic!("unexpected config {:?}", other),
    }
}

#[test]
fn requested_ports_reach_the_server_unchanged() {
    assert!(matches!(payload_of(&RemoteConfig::Tcp(8080)), Payload::RegisterTcp { port: 8080 }));
    assert!(matches!(payload_of(&RemoteConfig::Udp(65535)), Payload::RegisterUdp { port: 65535 }));
    match payload_of(&RemoteConfig::Http(HttpRemoteConfig::Port(9999))) {
        Payload::RegisterHttp { port, .. } => assert_eq!(port, 9999),
        other => panic!("unexpected payload {:?}", other),
    }
    match payload_of(&RemoteConfig::Http(HttpRemoteConfig::Subdomain("foo"))) {
        Payload::RegisterHttp { port, subdomain, .. } => assert_eq!((port, subdomain.as_str()), (0, "foo")),
        other => panic!("unexpected payload {:?}", other),
    }
}

#[test]
fn ports_of_registrations_are_cut_to_16_bits() {
    let cfg = tunnel::Config::Tcp(castled::pb::TcpConfig { remote_port: 65536 + 80 });
    match register_payload(&cfg) {
        Payload::RegisterTcp { port } => assert_eq!(port, 80),
        other => panic!("unexpected payload {:?}", other),
    }
}

#[test]
fn data_stream_accepts_one_start() {
    let mut started = false;
    assert!(matches!(data_stream_step(&mut started, Action::Start.to_i32(), vec![]), DataAction::Start));
    assert!(started);
    assert!(matches!(data_stream_step(&mut started, Action::Sending.to_i32(), vec![1, 2]), DataAction::Forward(d) if d == vec![1, 2]));
    assert!(matches!(data_stream_step(&mut started, Action::Start.to_i32(), vec![]), DataAction::DuplicateStart));
    assert!(matches!(data_stream_step(&mut started, 9, vec![]), DataAction::InvalidAction));
    assert!(matches!(data_stream_step(&mut started, Action::Finished.to_i32(), vec![]), DataAction::Finish));
    assert!(matches!(data_stream_step(&mut started, Action::Close.to_i32(), vec![]), DataAction::Close));
}

#[test]
fn registration_reply_carries_entrypoints_or_status() {
    let ok = registration_reply(ClientEventResponse::registered(vec!["tcp://a:1".to_string()]), "id".to_string())
        .expect("registered");
    match ok.payload {
        Some(control_command::Payload::Init(init)) => {
            assert_eq!(init.tunnel_id, "id");
            assert_eq!(init.assigned_entrypoint, vec!["tcp://a:1".to_string()]);
        }
        other => panic!("unexpected payload {:?}", other),
    }
    let failed = registration_reply(
        ClientEventResponse::registered_failed(Status::already_exists("port is already in use")),
        "id".to_string(),
    );
    let status = failed.expect_err("failed");
    assert_eq!(status.code, Code::AlreadyExists);
    assert_eq!(status.message, "port is already in use");
}

#[test]
fn work_command_names_the_connection() {
    match work_command(b"1234-abcd").payload {
        Some(control_command::Payload::Work(w)) => assert_eq!(w.connection_id, "1234-abcd"),
        other => panic!("unexpected payload {:?}", other),
    }
}

#[test]
fn invalid_utf8_becomes_replacement_characters() {
    let c = castled::client::tunnel::domain_config(vec![b'a', 0xff, b'b']);
    assert_eq!(c.domain, "a\u{FFFD}b");
    let c = castled::client::tunnel::subdomain_config(b"foo".to_vec());
    assert_eq!(c.subdomain, "foo");
    match work_command(&[0xc3, b'x']).payload {
        Some(control_command::Payload::Work(w)) => assert_eq!(w.connection_id, "\u{FFFD}x"),
        other => panic!("unexpected payload {:?}", other),
    }
}

#[test]
fn bind_errors_map_to_statuses() {
    let s = map_bind_error(BindErrorKind::AddrInUse);
    assert_eq!((s.code, s.message.as_str()), (Code::AlreadyExists, "port already in use"));
    let s = map_bind_error(BindErrorKind::PermissionDenied);
    assert_eq!((s.code, s.message.as_str()), (Code::PermissionDenied, "permission denied"));
    let s = map_bind_error(BindErrorKind::Other);
    assert_eq!((s.code, s.message.as_str()), (Code::Internal, "failed to bind port"));
}

#[test]
fn test_registrations() {
    let mut registry = DynamicRegistry::new();
    registry.register_domain(b"example1.com".to_vec(), 1);
    registry.register_domain(b"example2.com".to_vec(), 1);
    registry.register_subdomain(b"foo".to_vec(), 2);
    registry.register_subdomain(b"bar".to_vec(), 2);

    assert!(registry.domain_registered(b"example2.com"));
    assert!(registry.domain_registered(b"example1.com"));
    assert!(registry.subdomain_registered(b"bar"));
    assert!(registry.subdomain_registered(b"foo"));
    assert_eq!(registry.get_domain(b"example2.com"), Some(1));
    assert_eq!(registry.get_subdomain(b"foo"), Some(2));

    registry.unregister_subdomain(b"foo");
    assert!(!registry.subdomain_registered(b"foo"));
    assert!(registry.subdomain_registered(b"bar"));

    registry.unregister_domain(b"example2.com");
    assert!(!registry.domain_registered(b"example2.com"));
    assert!(registry.domain_registered(b"example1.com"));
}

#[test]
fn lookup_prefers_domains_then_first_label() {
    let mut registry = DynamicRegistry::new();
    registry.register_domain(b"foo.example.com".to_vec(), 1);
    registry.register_subdomain(b"foo".to_vec(), 2);
    registry.register_subdomain(b"bar".to_vec(), 3);
    assert_eq!(registry.lookup("foo.example.com"), Some(1));
    assert_eq!(registry.lookup("foo.other.com"), Some(2));
    assert_eq!(registry.lookup("bar.example.com"), Some(3));
    assert_eq!(registry.lookup("bar"), Some(3));
    assert_eq!(registry.lookup("baz.example.com"), None);
    assert_eq!(registry.lookup(""), None);
    assert_eq!(FixedRegistry::new(7).lookup("anything"), Some(7));
    assert_eq!(first_label_of(b"a.b.c"), b"a".to_vec());
    assert_eq!(first_label_of(b".b"), Vec::<u8>::new());
    assert_eq!(first_label_of(b"abc"), b"abc".to_vec());
}

#[test]
fn requested_ports_are_checked() {
    let mut pm = PortManager::new(3000..=3011, vec![3010]);
    let s = reserve_port(&mut pm, 2000).expect_err("out of range");
    assert_eq!((s.code, s.message.as_str()), (Code::InvalidArgument, "port is not in the allowed range or is excluded"));
    let s = reserve_port(&mut pm, 3010).expect_err("excluded");
    assert_eq!(s.code, Code::InvalidArgument);
    let a = reserve_port(&mut pm, 3001).expect("free");
    assert_eq!(*a, 3001);
    let s = reserve_port(&mut pm, 3001).expect_err("taken");
    assert_eq!((s.code, s.message.as_str()), (Code::AlreadyExists, "port is already in use"));
    discard_port(&mut pm, a);
    let s = reserve_port(&mut pm, 3001).expect_err("discarded ports stay out");
    assert_eq!(s.code, Code::AlreadyExists);
}

#[test]
fn random_ports_give_up() {
    let mut pm = PortManager::new(3000..=3001, vec![]);
    let a = reserve_port(&mut pm, 0).expect("a random port");
    assert!(*a == 3000 || *a == 3001);
    let s = next_random_port(&mut pm, MAX_PORT_ATTEMPTS).expect_err("too many attempts");
    assert_eq!((s.code, s.message.as_str()), (Code::ResourceExhausted, "no available port"));
    let b = next_random_port(&mut pm, 1).expect("the other port");
    assert_ne!(*a, *b);
    let s = next_random_port(&mut pm, 2).expect_err("none left");
    assert_eq!(s.code, Code::ResourceExhausted);
}

#[test]
fn http_tunnels_are_routed_once() {
    let mut ds = DataServer::new(3100, EntrypointConfig::default());
    let mut rng = <rand::rngs::StdRng as rand::SeedableRng>::seed_from_u64(7);

    let mut sub = String::new();
    assert!(matches!(ds.register_http("example.com", &mut sub, false, 1, &mut rng), HttpRoute::Routed));
    match ds.register_http("example.com", &mut sub, false, 2, &mut rng) {
        HttpRoute::Failed(s) => assert_eq!((s.code, s.message.as_str()), (Code::AlreadyExists, "domain already registered")),
        other => panic!("unexpected {:?}", other),
    }

    let mut sub = "foo".to_string();
    assert!(matches!(ds.register_http("", &mut sub, false, 3, &mut rng), HttpRoute::Routed));
    let mut sub = "foo".to_string();
    match ds.register_http("", &mut sub, true, 4, &mut rng) {
        HttpRoute::Failed(s) => assert_eq!(s.message, "subdomain already registered"),
        other => panic!("unexpected {:?}", other),
    }

    let mut sub = String::new();
    assert!(matches!(ds.register_http("", &mut sub, true, 5, &mut rng), HttpRoute::Routed));
    assert_eq!(sub.len(), 8);
    assert!(sub.chars().all(|c| c.is_ascii_lowercase() || c.is_ascii_digit()));
    assert_eq!(ds.http_registry().get_subdomain(sub.as_bytes()), Some(5));

    let mut sub = String::new();
    assert!(matches!(ds.register_http("", &mut sub, false, 6, &mut rng), HttpRoute::NeedsListener));

    ds.unregister_http("example.com", "foo");
    assert!(!ds.http_registry().domain_registered(b"example.com"));
    assert!(!ds.http_registry().subdomain_registered(b"foo"));
}

#[test]
fn registration_response_lists_entrypoints() {
    let cfg = EntrypointConfig { domain: vec!["example.com".to_string()], ..Default::default() };
    let ds = DataServer::new(3100, cfg);
    let payload = Payload::RegisterTcp { port: 0 };
    match ds.registration_response(&payload, Ok(4242)) {
        ClientEventResponse::Registered { status, entrypoint } => {
            assert!(status.is_none());
            assert_eq!(entrypoint, vec!["tcp://example.com:4242".to_string()]);
        }
    }
    match ds.registration_response(&payload, Err(Status::resource_exhausted("no available port"))) {
        ClientEventResponse::Registered { status, entrypoint } => {
            assert_eq!(status.unwrap().code, Code::ResourceExhausted);
            assert!(entrypoint.is_empty());
        }
    }
}

#[test]
fn charset_characters_in_order() {
    let all: String = (0..36).map(charset_char).collect();
    assert_eq!(all, "abcdefghijklmnopqrstuvwxyz0123456789");
}

#[test]
fn drawn_subdomains_are_routed_when_free() {
    let mut ds = DataServer::new(3100, EntrypointConfig::default());
    assert!(matches!(ds.route_drawn_subdomain("abcd1234", 1), HttpRoute::Routed));
    assert_eq!(ds.http_registry().get_subdomain(b"abcd1234"), Some(1));
    assert!(matches!(ds.route_drawn_subdomain("abcd1234", 2), HttpRoute::SubdomainTaken));
    assert_eq!(ds.http_registry().get_subdomain(b"abcd1234"), Some(1));
}

#[test]
fn http_test_the_cloned_http_shares_same_registrations() {
    let http1 = std::sync::Arc::new(std::sync::Mutex::new(DynamicRegistry::new()));
    let http2 = std::sync::Arc::clone(&http1);

    http1.lock().unwrap().register_domain(b"example1.com".to_vec(), 1);
    http2.lock().unwrap().register_domain(b"example2.com".to_vec(), 1);
    http1.lock().unwrap().register_subdomain(b"foo".to_vec(), 2);
    http2.lock().unwrap().register_subdomain(b"bar".to_vec(), 2);

    assert!(http1.lock().unwrap().domain_registered(b"example2.com"));
    assert!(http2.lock().unwrap().domain_registered(b"example1.com"));
    assert!(http1.lock().unwrap().subdomain_registered(b"bar"));
    assert!(http2.lock().unwrap().subdomain_registered(b"foo"));
    assert_eq!(http1.lock().unwrap().get_domain(b"example2.com"), Some(1));
    assert_eq!(http2.lock().unwrap().get_subdomain(b"foo"), Some(2));

    http2.lock().unwrap().unregister_subdomain(b"foo");
    assert!(!http1.lock().unwrap().subdomain_registered(b"foo"));
    assert!(http1.lock().unwrap().subdomain_registered(b"bar"));

    http1.lock().unwrap().unregister_domain(b"example2.com");
    assert!(!http2.lock().unwrap().domain_registered(b"example2.com"));
    assert!(http2.lock().unwrap().domain_registered(b"example1.com"));
}

#[test]
fn data_server_keeps_its_configuration() {
    let cfg = EntrypointConfig { domain: vec!["example.com".to_string()], ..EntrypointConfig::default() };
    let ds = DataServer::new(3100, cfg);
    assert_eq!(ds.entrypoint_config().domain, vec!["example.com".to_string()]);
    assert_eq!(ds.get_vhttp_port(), 3100);
    let payload = Payload::RegisterTcp { port: 0 };
    match ds.registration_response(&payload, Ok(8080)) {
        ClientEventResponse::Registered { status, entrypoint } => {
            assert!(status.is_none());
            assert_eq!(entrypoint, vec!["tcp://example.com:8080".to_string()]);
        }
    }
}

#[test]
fn bus_requests_name_their_kind() {
    let req = |config: Option<tunnel::Config>| RegisterReq {
        tunnel: Some(Tunnel { id: String::new(), name: "t".to_string(), config }),
    };
    let msg = |r: Result<BusPayload, Status>| {
        let s = r.expect_err("refused");
        assert_eq!(s.code, Code::InvalidArgument);
        s.message
    };
    assert_eq!(msg(bus_register_request(TunnelKind::Tcp, &RegisterReq { tunnel: None })), "tunnel is required");
    assert_eq!(msg(bus_register_request(TunnelKind::Tcp, &req(None))), "config is required");
    let tcp = |p| Some(tunnel::Config::Tcp(TcpConfig { remote_port: p }));
    let http = |p, s: &str, d: &str| {
        Some(tunnel::Config::Http(HttpConfig {
            domain: d.to_string(),
            subdomain: s.to_string(),
            random_subdomain: false,
            remote_port: p,
        }))
    };
    assert_eq!(msg(bus_register_request(TunnelKind::Tcp, &req(tcp(0)))), "remote_port is required");
    assert_eq!(msg(bus_register_request(TunnelKind::Tcp, &req(http(1, "a", "b")))), "tcp is required");
    assert_eq!(msg(bus_register_request(TunnelKind::Http, &req(tcp(80)))), "http is required");
    assert_eq!(
        msg(bus_register_request(TunnelKind::Http, &req(http(80, "", "example.com")))),
        "at least remote_port, subdomain and domain is required"
    );
    assert!(matches!(bus_register_request(TunnelKind::Tcp, &req(tcp(65536 + 22))), Ok(BusPayload::RegisterTcp { port: 22 })));
    match bus_register_request(TunnelKind::Http, &req(http(80, "foo", "example.com"))) {
        Ok(BusPayload::RegisterHttp { port, subdomain, domain }) => {
            assert_eq!((port, subdomain.as_str(), domain.as_str()), (80, "foo", "example.com"))
        }
        other => panic!("unexpected {:?}", other),
    }
}

#[test]
fn bus_routes_subdomain_before_domain() {
    let mut registry = DynamicRegistry::new();
    match bus_register_http(&mut registry, 0, b"", b"", 1) {
        BusRoute::Failed(s) => assert_eq!((s.code, s.message.as_str()), (Code::InvalidArgument, "invalid http tunnel arguments")),
        other => panic!("unexpected {:?}", other),
    }
    assert!(matches!(bus_register_http(&mut registry, 0, b"foo", b"example.com", 1), BusRoute::Routed));
    assert_eq!(registry.get_subdomain(b"foo"), Some(1));
    assert!(!registry.domain_registered(b"example.com"));
    match bus_register_http(&mut registry, 0, b"foo", b"", 2) {
        BusRoute::Failed(s) => assert_eq!(s.message, "subdomain already registered"),
        other => panic!("unexpected {:?}", other),
    }
    assert!(matches!(bus_register_http(&mut registry, 0, b"", b"example.com", 3), BusRoute::Routed));
    match bus_register_http(&mut registry, 0, b"", b"example.com", 4) {
        BusRoute::Failed(s) => assert_eq!((s.code, s.message.as_str()), (Code::AlreadyExists, "domain already registered")),
        other => panic!("unexpected {:?}", other),
    }
    assert!(matches!(bus_register_http(&mut registry, 8080, b"", b"", 5), BusRoute::NeedsListener(8080)));
    assert!(bus_stream_ends(&DataAction::DuplicateStart));
    assert!(!bus_stream_ends(&DataAction::Finish));
    assert!(!bus_stream_ends(&DataAction::Close));
}
