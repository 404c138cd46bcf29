use dbus_router::config::HostPass;
use dbus_router::daemon::parse_string_array;
use dbus_router::message::{message_from_wire, Message, Prologue};
use dbus_router::session::{
    build_hello_call, forwarded_label, reply_label, service_call_label, AfterClose, ClosedConn, Delivery,
    SessionState,
};
use dbus_router::{Bus, Config, RouteRule};
use zvariant::{serialized::Context, to_bytes, ObjectPath, Value, LE};

fn wire_msg(ty: u8, serial: u32, fields: Vec<(u8, Value)>, body: &[u8]) -> Message {
    let encoded = to_bytes(Context::new_dbus(LE, 12), &fields).unwrap();
    let mut raw = vec![b'l', ty, 0, 1];
    raw.extend_from_slice(&(body.len() as u32).to_le_bytes());
    raw.extend_from_slice(&serial.to_le_bytes());
    raw.extend_from_slice(&encoded);
    while raw.len() % 8 != 0 {
        raw.push(0);
    }
    raw.extend_from_slice(body);
    let p = Prologue::parse(&raw[..16]).unwrap();
    message_from_wire(p, raw)
}

fn parse_back(raw: Vec<u8>) -> Message {
    let p = Prologue::parse(&raw[..16]).unwrap();
    message_from_wire(p, raw)
}

fn dbus_call(serial: u32, member: &str, body: &[u8]) -> Message {
    wire_msg(
        1,
        serial,
        vec![
            (1, Value::ObjectPath(ObjectPath::try_from("/org/freedesktop/DBus").unwrap())),
            (2, Value::Str("org.freedesktop.DBus".into())),
            (3, Value::Str(member.to_string().into())),
            (6, Value::Str("org.freedesktop.DBus".into())),
        ],
        body,
    )
}

fn reply_from(serial: u32, reply_serial: u32, sender: &str, body: &[u8]) -> Message {
    wire_msg(
        2,
        serial,
        vec![(5, Value::U32(reply_serial)), (7, Value::Str(sender.to_string().into()))],
        body,
    )
}

fn client_step(s: &mut SessionState, msg: Message) -> Delivery {
    assert!(s.accepts_client_message(&msg));
    s.handle_client_message(msg)
}

fn upstream_step(s: &mut SessionState, msg: Message, bus: Bus) -> Delivery {
    assert!(s.accepts_upstream_message(&msg, bus));
    s.handle_upstream_message(msg, bus)
}

fn str_body(s: &str) -> Vec<u8> {
    to_bytes(Context::new_dbus(LE, 0), &s).unwrap().to_vec()
}

#[test]
fn hello_goes_to_sandbox_and_reply_gets_fake_name() {
    let mut s = SessionState::new(Config::default(), None);
    let hello = dbus_call(1, "Hello", &[]);
    let raw = hello.raw.clone();
    match client_step(&mut s, hello) {
        Delivery::ToBus(Bus::Sandbox, out) => assert_eq!(out, raw),
        other => panic!("unexpected {:?}", other),
    }
    let reply = reply_from(10, 1, "org.freedesktop.DBus", &str_body(":1.7"));
    match upstream_step(&mut s, reply, Bus::Sandbox) {
        Delivery::ToClient(out) => {
            let m = parse_back(out);
            assert_eq!(m.extract_string_from_body().as_deref(), Some(":s.1.7"));
            assert_eq!(m.header.sender.as_deref(), Some("org.freedesktop.DBus"));
        }
        other => panic!("unexpected {:?}", other),
    }
}

#[test]
fn reply_from_other_bus_is_not_rewritten() {
    let mut s = SessionState::new(Config::default(), None);
    client_step(&mut s, dbus_call(1, "GetNameOwner", &str_body("org.a.B")));
    // The call went to the sandbox bus; a reply claiming to come from the
    // host bus is forwarded without body rewrite.
    let reply = reply_from(10, 1, "org.freedesktop.DBus", &str_body(":1.7"));
    match upstream_step(&mut s, reply, Bus::Host) {
        Delivery::ToClient(out) => {
            assert_eq!(parse_back(out).extract_string_from_body().as_deref(), Some(":1.7"))
        }
        other => panic!("unexpected {:?}", other),
    }
}

#[test]
fn unique_sender_gets_prefix_of_its_bus() {
    let mut s = SessionState::new(Config::default(), None);
    let signal = wire_msg(
        4,
        3,
        vec![
            (1, Value::ObjectPath(ObjectPath::try_from("/a").unwrap())),
            (2, Value::Str("org.a.I".into())),
            (3, Value::Str("Changed".into())),
            (7, Value::Str(":1.9".into())),
        ],
        &[],
    );
    match upstream_step(&mut s, signal, Bus::Host) {
        Delivery::ToClient(out) => {
            let m = parse_back(out);
            assert_eq!(m.header.sender.as_deref(), Some(":h.1.9"));
            assert_eq!(m.header.member.as_deref(), Some("Changed"));
            assert_eq!(m.header.interface.as_deref(), Some("org.a.I"));
        }
        other => panic!("unexpected {:?}", other),
    }
}

#[test]
fn name_owner_changed_signal_is_rewritten() {
    let mut s = SessionState::new(Config::default(), None);
    let body = to_bytes(Context::new_dbus(LE, 0), &("org.a.B", "", ":1.4")).unwrap().to_vec();
    let signal = wire_msg(
        4,
        3,
        vec![
            (1, Value::ObjectPath(ObjectPath::try_from("/org/freedesktop/DBus").unwrap())),
            (2, Value::Str("org.freedesktop.DBus".into())),
            (3, Value::Str("NameOwnerChanged".into())),
            (7, Value::Str("org.freedesktop.DBus".into())),
            (8, Value::Signature(zvariant::Signature::try_from("sss").unwrap())),
        ],
        &body,
    );
    match upstream_step(&mut s, signal, Bus::Sandbox) {
        Delivery::ToClient(out) => {
            let m = parse_back(out);
            let data = zvariant::serialized::Data::new(&m.raw[m.body_start()..], Context::new_dbus(LE, 0));
            let (t, _): ((String, String, String), usize) = data.deserialize().unwrap();
            assert_eq!(t, ("org.a.B".to_string(), String::new(), ":s.1.4".to_string()));
        }
        other => panic!("unexpected {:?}", other),
    }
}

#[test]
fn service_call_round_trip_returns_to_calling_bus() {
    let mut s = SessionState::new(Config::default(), None);
    // The client takes a name; with no host route it goes to the sandbox bus.
    let body = to_bytes(Context::new_dbus(LE, 0), &("org.test.Svc", 4u32)).unwrap().to_vec();
    match client_step(&mut s, dbus_call(2, "RequestName", &body)) {
        Delivery::ToBus(Bus::Sandbox, _) => {}
        other => panic!("unexpected {:?}", other),
    }
    assert_eq!(s.sandbox_services, vec!["org.test.Svc".to_string()]);
    assert!(s.exported_services.is_empty());

    // A peer on the sandbox bus calls the service.
    let call = wire_msg(
        1,
        77,
        vec![
            (1, Value::ObjectPath(ObjectPath::try_from("/svc").unwrap())),
            (3, Value::Str("Ping".into())),
            (6, Value::Str("org.test.Svc".into())),
            (7, Value::Str(":1.9".into())),
        ],
        &[],
    );
    match upstream_step(&mut s, call, Bus::Sandbox) {
        Delivery::ToClient(out) => {
            assert_eq!(parse_back(out).header.sender.as_deref(), Some(":s.1.9"))
        }
        other => panic!("unexpected {:?}", other),
    }
    assert_eq!(s.incoming_calls.get(&77), Some(&Bus::Sandbox));

    // The client answers; the reply goes back to the sandbox bus with the
    // real destination.
    let answer = wire_msg(2, 3, vec![(6, Value::Str(":s.1.9".into())), (5, Value::U32(77))], &[]);
    match client_step(&mut s, answer) {
        Delivery::ToBus(Bus::Sandbox, out) => {
            // The destination is rewritten, and the reply serial after it
            // is still read back at its realigned place.
            assert!(!out.windows(6).any(|w| w == b":s.1.9"));
            assert_eq!(out.len() % 8, 0);
            let m = parse_back(out);
            assert_eq!(m.header.destination.as_deref(), Some(":1.9"));
            assert_eq!(m.header.reply_serial, Some(77));
        }
        other => panic!("unexpected {:?}", other),
    }
    assert!(s.incoming_calls.is_empty());
}

#[test]
fn requesting_the_same_name_twice_records_it_once() {
    let mut s = SessionState::new(Config::default(), None);
    let body = to_bytes(Context::new_dbus(LE, 0), &("org.test.Svc", 0u32)).unwrap().to_vec();
    client_step(&mut s, dbus_call(2, "RequestName", &body));
    client_step(&mut s, dbus_call(3, "RequestName", &body));
    assert_eq!(s.sandbox_services.len(), 1);
}

#[test]
fn list_names_is_merged_from_both_buses() {
    let mut s = SessionState::new(Config::default(), None);
    let req = dbus_call(5, "ListNames", &[]);
    let raw = req.raw.clone();
    match client_step(&mut s, req) {
        Delivery::ToBoth(out) => assert_eq!(out, raw),
        other => panic!("unexpected {:?}", other),
    }
    let host_names = vec!["org.a".to_string(), ":1.1".to_string()];
    let host_body = to_bytes(Context::new_dbus(LE, 0), &host_names).unwrap().to_vec();
    let first = reply_from(20, 5, "org.freedesktop.DBus", &host_body);
    assert!(matches!(upstream_step(&mut s, first, Bus::Host), Delivery::Held));
    let sandbox_names = vec![":1.2".to_string(), "org.a".to_string()];
    let sandbox_body = to_bytes(Context::new_dbus(LE, 0), &sandbox_names).unwrap().to_vec();
    let second = reply_from(21, 5, "org.freedesktop.DBus", &sandbox_body);
    match upstream_step(&mut s, second, Bus::Sandbox) {
        Delivery::ToClientWithoutFds(out) => {
            let m = parse_back(out);
            assert_eq!(m.header.reply_serial, Some(5));
            assert_eq!(parse_string_array(&m).unwrap(), vec![":s.1.2", "org.a", ":h.1.1"]);
        }
        other => panic!("unexpected {:?}", other),
    }
    assert!(s.pending_merges.is_empty());
}

#[test]
fn hostpass_client_goes_to_host() {
    let config = Config {
        host_routes: vec![],
        hostpass: vec![HostPass { process: "/usr/bin/app".to_string() }],
    };
    let mut s = SessionState::new(config, Some("/usr/bin/app".to_string()));
    assert!(s.is_hostpass());
    assert!(matches!(client_step(&mut s, dbus_call(1, "Hello", &[])), Delivery::ToBus(Bus::Host, _)));
    let other = SessionState::new(Config::default(), Some("/usr/bin/app".to_string()));
    assert!(!other.is_hostpass());
}

#[test]
fn host_route_and_fake_destination_pick_the_bus() {
    let config = Config {
        host_routes: vec![RouteRule { destination: "org.fcitx.*".to_string() }],
        hostpass: vec![],
    };
    let mut s = SessionState::new(config, None);
    let call = wire_msg(
        1,
        9,
        vec![
            (1, Value::ObjectPath(ObjectPath::try_from("/x").unwrap())),
            (3, Value::Str("M".into())),
            (6, Value::Str("org.fcitx.Fcitx5".into())),
        ],
        &[],
    );
    assert!(matches!(client_step(&mut s, call), Delivery::ToBus(Bus::Host, _)));
    let call = wire_msg(
        1,
        10,
        vec![
            (1, Value::ObjectPath(ObjectPath::try_from("/x").unwrap())),
            (3, Value::Str("M".into())),
            (6, Value::Str(":h.1.5".into())),
        ],
        &[],
    );
    match client_step(&mut s, call) {
        Delivery::ToBus(Bus::Host, out) => {
            assert_eq!(parse_back(out).header.destination.as_deref(), Some(":1.5"))
        }
        other => panic!("unexpected {:?}", other),
    }
    assert_eq!(s.pending_calls.get(&10).map(|c| c.bus), Some(Bus::Host));
}

#[test]
fn credential_request_loses_fake_prefix_and_goes_to_its_bus() {
    let mut s = SessionState::new(Config::default(), None);
    match client_step(&mut s, dbus_call(4, "GetConnectionUnixUser", &str_body(":h.1.5"))) {
        Delivery::ToBus(Bus::Host, out) => {
            assert_eq!(parse_back(out).extract_string_from_body().as_deref(), Some(":1.5"))
        }
        other => panic!("unexpected {:?}", other),
    }
}

#[test]
fn match_rules_go_to_both_or_to_their_senders_bus() {
    let mut s = SessionState::new(Config::default(), None);
    match client_step(&mut s, dbus_call(6, "AddMatch", &str_body("type='signal'"))) {
        Delivery::ToBoth(_) => {}
        other => panic!("unexpected {:?}", other),
    }
    assert_eq!(s.pending_calls.get(&6).map(|c| c.bus), Some(Bus::Sandbox));
    match client_step(&mut s, dbus_call(7, "AddMatch", &str_body("type='signal',sender=':h.1.3'"))) {
        Delivery::ToBus(Bus::Host, out) => assert_eq!(
            parse_back(out).extract_string_from_body().as_deref(),
            Some("type='signal',sender=':1.3'")
        ),
        other => panic!("unexpected {:?}", other),
    }
}

#[test]
fn message_without_the_field_and_a_long_array_claim_is_forwarded_unchanged() {
    let mut s = SessionState::new(Config::default(), None);
    let mut msg = wire_msg(
        1,
        9,
        vec![
            (1, Value::ObjectPath(ObjectPath::try_from("/x").unwrap())),
            (3, Value::Str("M".into())),
        ],
        &[],
    );
    // The header says the call goes to a fake name, but the bytes hold no
    // destination field and claim a header fields array longer than the
    // message: the rewrite refuses the bytes and they go out as they came.
    msg.header.destination = Some(":h.1.5".to_string());
    msg.raw[12] = 200;
    let raw = msg.raw.clone();
    assert!(s.accepts_client_message(&msg));
    match s.handle_client_message(msg) {
        Delivery::ToBus(Bus::Host, out) => assert_eq!(out, raw),
        other => panic!("unexpected {:?}", other),
    }
}

#[test]
fn field_in_a_message_claiming_a_long_array_is_left_unchanged() {
    let mut s = SessionState::new(Config::default(), None);
    let mut msg = wire_msg(
        1,
        9,
        vec![
            (6, Value::Str(":h.1.5".into())),
            (1, Value::ObjectPath(ObjectPath::try_from("/x").unwrap())),
            (3, Value::Str("M".into())),
        ],
        &[],
    );
    msg.raw[12] = 200;
    let raw = msg.raw.clone();
    assert!(s.accepts_client_message(&msg));
    match s.handle_client_message(msg) {
        Delivery::ToBus(Bus::Host, out) => assert_eq!(out, raw),
        other => panic!("unexpected {:?}", other),
    }
}

#[test]
fn hostpass_session_outlives_the_sandbox_bus() {
    let config = Config {
        host_routes: vec![],
        hostpass: vec![HostPass { process: "*/python3*".to_string() }],
    };
    let s = SessionState::new(config, Some("/usr/bin/python3.12".to_string()));
    assert!(s.is_hostpass());
    assert!(!s.sends_host_hello());
    assert_eq!(s.on_connection_closed(ClosedConn::Sandbox), AfterClose::DropSandbox);
    assert_eq!(s.on_connection_closed(ClosedConn::Host), AfterClose::Stop);
    assert_eq!(s.on_connection_closed(ClosedConn::Client), AfterClose::Stop);

    let plain = SessionState::new(Config::default(), Some("/usr/bin/python3.12".to_string()));
    assert!(plain.sends_host_hello());
    assert_eq!(plain.on_connection_closed(ClosedConn::Sandbox), AfterClose::Stop);
    assert_eq!(plain.on_connection_closed(ClosedConn::Host), AfterClose::Stop);
    assert_eq!(plain.on_connection_closed(ClosedConn::Client), AfterClose::Stop);
}

#[test]
fn hello_call_bytes() {
    let raw = build_hello_call().unwrap();
    let path = ObjectPath::try_from("/org/freedesktop/DBus").unwrap();
    let fields: Vec<(u8, Value)> = vec![
        (1, Value::ObjectPath(path)),
        (2, Value::Str("org.freedesktop.DBus".into())),
        (3, Value::Str("Hello".into())),
        (6, Value::Str("org.freedesktop.DBus".into())),
    ];
    let encoded = to_bytes(Context::new_dbus(LE, 12), &fields).unwrap();
    let mut expected = vec![b'l', 1, 0, 1, 0, 0, 0, 0, 1, 0, 0, 0];
    expected.extend_from_slice(&encoded);
    while expected.len() % 8 != 0 {
        expected.push(0);
    }
    assert_eq!(raw, expected);
    let m = parse_back(raw);
    assert_eq!(m.header.member.as_deref(), Some("Hello"));
    assert_eq!(m.header.serial, 1);
}

#[test]
fn labels() {
    assert_eq!(service_call_label(Bus::Host), "Host->Client(exported)");
    assert_eq!(service_call_label(Bus::Sandbox), "Sandbox->Client(service)");
    assert_eq!(forwarded_label(Bus::Host), "Host->Client");
    assert_eq!(forwarded_label(Bus::Sandbox), "Sandbox->Client");
    assert_eq!(reply_label(Bus::Host), "Client->Host(reply)");
    assert_eq!(reply_label(Bus::Sandbox), "Client->Sandbox(reply)");
}
