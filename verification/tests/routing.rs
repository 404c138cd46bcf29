use dbus_router::message::{Endian, Message, MessageHeader, MessageType};
use dbus_router::routing::{route_request, RouteDecision};
use dbus_router::config::HostPass;
use dbus_router::{Bus, Config, RouteRule};
use zvariant::{serialized::Context, to_bytes, Value, LE};

fn base_message() -> Message {
    Message {
        header: MessageHeader {
            endian: Endian::Little,
            msg_type: MessageType::MethodCall,
            flags: 0,
            serial: 1,
            body_len: 0,
            destination: Some("org.freedesktop.DBus".to_string()),
            reply_serial: None,
            sender: None,
            interface: Some("org.freedesktop.DBus".to_string()),
            member: Some("ListNames".to_string()),
            path: None,
            signature: None,
            unix_fds: None,
        },
        raw: vec![],
    }
}

#[test]
fn test_route_list_names_merge() {
    let config = Config::default();
    let msg = base_message();
    assert!(matches!(route_request(&config, &msg, None), RouteDecision::Merge));
}

#[test]
fn test_route_regular_destination() {
    let config = Config {
        host_routes: vec![RouteRule {
            destination: "org.freedesktop.portal.*".to_string(),
        }],
        ..Default::default()
    };
    let mut msg = base_message();
    msg.header.destination = Some("org.freedesktop.portal.Desktop".to_string());
    msg.header.interface = None;
    msg.header.member = Some("Method".to_string());

    assert!(matches!(route_request(&config, &msg, None), RouteDecision::Single(Bus::Host)));
}

#[test]
fn routing_other_cases() {
    let config = Config::default();
    // Anything else on the bus daemon goes to the sandbox bus.
    let mut msg = base_message();
    msg.header.member = Some("GetId".to_string());
    assert!(matches!(route_request(&config, &msg, None), RouteDecision::Single(Bus::Sandbox)));
    // A fake destination names its bus, even on a hostpass-free config.
    let mut msg = base_message();
    msg.header.destination = Some(":s.1.4".to_string());
    assert!(matches!(route_request(&config, &msg, None), RouteDecision::Single(Bus::Sandbox)));
    // A signal without destination goes to the sandbox bus.
    let mut msg = base_message();
    msg.header.destination = None;
    msg.header.msg_type = MessageType::Signal;
    assert!(matches!(route_request(&config, &msg, None), RouteDecision::Single(Bus::Sandbox)));
    // A client without hostpass entry is routed normally.
    let msg = base_message();
    assert!(matches!(route_request(&config, &msg, Some("/usr/bin/x")), RouteDecision::Merge));
}

fn daemon_call_with_body(member: &str, arg: &str) -> Message {
    let fields: Vec<(u8, Value)> = vec![
        (2, Value::Str("org.freedesktop.DBus".into())),
        (3, Value::Str(member.to_string().into())),
        (6, Value::Str("org.freedesktop.DBus".into())),
    ];
    let encoded = to_bytes(Context::new_dbus(LE, 12), &fields).unwrap();
    let body = to_bytes(Context::new_dbus(LE, 0), &arg).unwrap();
    let mut raw = vec![b'l', 1, 0, 1];
    raw.extend_from_slice(&(body.len() as u32).to_le_bytes());
    raw.extend_from_slice(&1u32.to_le_bytes());
    raw.extend_from_slice(&encoded);
    while raw.len() % 8 != 0 {
        raw.push(0);
    }
    raw.extend_from_slice(&body);
    let p = dbus_router::message::Prologue::parse(&raw[..16]).unwrap();
    dbus_router::message::message_from_wire(p, raw)
}

#[test]
fn name_argument_picks_the_bus() {
    let config = Config {
        host_routes: vec![RouteRule { destination: "org.fcitx.*".to_string() }],
        hostpass: vec![],
    };
    let msg = daemon_call_with_body("GetConnectionSELinuxSecurityContext", ":h.1.5");
    assert!(matches!(route_request(&config, &msg, None), RouteDecision::Single(Bus::Host)));
    let msg = daemon_call_with_body("GetAdtAuditSessionData", ":s.1.5");
    assert!(matches!(route_request(&config, &msg, None), RouteDecision::Single(Bus::Sandbox)));
    let msg = daemon_call_with_body("RequestName", "org.fcitx.Fcitx5");
    assert!(matches!(route_request(&config, &msg, None), RouteDecision::Single(Bus::Host)));
    let msg = daemon_call_with_body("NameHasOwner", "org.example.App");
    assert!(matches!(route_request(&config, &msg, None), RouteDecision::Single(Bus::Sandbox)));
}

#[test]
fn match_rules_route_by_sender() {
    let config = Config::default();
    let msg = daemon_call_with_body("AddMatch", "type='signal',sender=':h.1.2'");
    assert!(matches!(route_request(&config, &msg, None), RouteDecision::Single(Bus::Host)));
    let msg = daemon_call_with_body("RemoveMatch", "type='signal'");
    assert!(matches!(route_request(&config, &msg, None), RouteDecision::Both));
}

#[test]
fn hostpass_client_goes_to_host_without_a_readable_body() {
    let config = Config {
        host_routes: vec![],
        hostpass: vec![HostPass {
            process: "*/python3*".to_string(),
        }],
    };
    // A match rule call would route by its body, but a hostpass client's
    // messages all go to the host bus: the (empty) bytes are never read.
    let mut msg = base_message();
    msg.header.member = Some("AddMatch".to_string());
    assert!(matches!(
        route_request(&config, &msg, Some("/usr/bin/python3")),
        RouteDecision::Single(Bus::Host)
    ));
    assert!(matches!(route_request(&config, &base_message(), Some("/usr/bin/python3")), RouteDecision::Single(Bus::Host)));
    assert!(matches!(route_request(&config, &base_message(), Some("/usr/bin/node")), RouteDecision::Merge));
}
