use dbus_router::codec::string_array_fits_u32;
use dbus_router::daemon::{
    build_list_names_response, build_method_return, merge_list_names, needs_merge, needs_request_rewrite,
    needs_response_rewrite, parse_string_array, rewrite_list_names_response, rewrite_match_rule_body,
    rewrite_name_owner_changed, rewrite_single_name_response, rewrite_string_array_response,
    rewrite_unique_name_request, signal_needs_rewrite,
};
use dbus_router::message::{message_from_wire, Message, Prologue};
use dbus_router::{Bus, Error};
use zvariant::{serialized::Context, to_bytes, Value, LE};

/// A little-endian message of type `ty` with the given header fields and body.
fn daemon_msg(ty: u8, serial: u32, fields: Vec<(u8, Value)>, body: &[u8]) -> Message {
    let encoded = to_bytes(Context::new_dbus(LE, 12), &fields).unwrap();
    let mut raw = vec![b'l', ty, 0, 1];
    raw.extend_from_slice(&(body.len() as u32).to_le_bytes());
    raw.extend_from_slice(&serial.to_le_bytes());
    raw.extend_from_slice(&encoded);
    while raw.len() % 8 != 0 {
        raw.push(0);
    }
    raw.extend_from_slice(body);
    let p = Prologue::parse(&raw[..16]).unwrap();
    message_from_wire(p, raw)
}

fn reparse(raw: Vec<u8>) -> Message {
    let p = Prologue::parse(&raw[..16]).unwrap();
    message_from_wire(p, raw)
}

fn body_of<T: serde::Serialize + zvariant::Type>(v: &T) -> Vec<u8> {
    to_bytes(Context::new_dbus(LE, 0), v).unwrap().to_vec()
}

#[test]
fn test_merge_list_names() {
    let host = vec![
        "org.fcitx.Fcitx5".to_string(),
        ":1.45".to_string(),
        "org.freedesktop.DBus".to_string(),
    ];
    let sandbox = vec![
        "org.example.App".to_string(),
        ":1.23".to_string(),
        "org.freedesktop.DBus".to_string(), // duplicate
    ];

    let merged = merge_list_names(host, sandbox);

    assert!(merged.contains(&"org.example.App".to_string()));
    assert!(merged.contains(&":s.1.23".to_string()));
    assert!(merged.contains(&"org.freedesktop.DBus".to_string()));
    assert!(merged.contains(&"org.fcitx.Fcitx5".to_string()));
    assert!(merged.contains(&":h.1.45".to_string()));

    // org.freedesktop.DBus should only appear once
    assert_eq!(merged.iter().filter(|n| *n == "org.freedesktop.DBus").count(), 1);
}

#[test]
fn test_needs_checks() {
    assert!(needs_response_rewrite("GetNameOwner"));
    assert!(needs_response_rewrite("Hello"));
    assert!(!needs_response_rewrite("RequestName"));

    assert!(needs_request_rewrite("GetConnectionCredentials"));
    assert!(!needs_request_rewrite("GetNameOwner"));

    assert!(needs_merge("ListNames"));
    assert!(!needs_merge("GetNameOwner"));

    assert!(signal_needs_rewrite("NameOwnerChanged"));
    assert!(!signal_needs_rewrite("NameAcquired"));
}

#[test]
fn merge_order_is_sandbox_first_then_host_without_repeats() {
    let merged = merge_list_names(
        vec!["b".to_string(), ":1.1".to_string(), "a".to_string()],
        vec!["a".to_string(), ":1.2".to_string(), "a".to_string()],
    );
    assert_eq!(merged, vec!["a", ":s.1.2", "b", ":h.1.1"]);
}

#[test]
fn single_name_reply_gets_the_bus_prefix() {
    let msg = daemon_msg(2, 5, vec![(5, Value::U32(1))], &body_of(&":1.45"));
    let out = reparse(rewrite_single_name_response(&msg, Bus::Sandbox).unwrap());
    assert_eq!(out.extract_string_from_body().as_deref(), Some(":s.1.45"));
    assert_eq!(out.header.reply_serial, Some(1));
    assert_eq!(out.header.body_len as usize, 4 + ":s.1.45".len() + 1);
    // A well-known name is left as it is.
    let msg = daemon_msg(2, 5, vec![(5, Value::U32(1))], &body_of(&"org.a.B"));
    assert_eq!(rewrite_single_name_response(&msg, Bus::Host).unwrap(), msg.raw);
}

#[test]
fn unique_name_request_loses_the_prefix() {
    let msg = daemon_msg(1, 5, vec![], &body_of(&":h.1.45"));
    let (raw, bus) = rewrite_unique_name_request(&msg).unwrap();
    assert_eq!(bus, Bus::Host);
    assert_eq!(reparse(raw).extract_string_from_body().as_deref(), Some(":1.45"));

    let msg = daemon_msg(1, 5, vec![], &body_of(&"org.a.B"));
    let (raw, bus) = rewrite_unique_name_request(&msg).unwrap();
    assert_eq!(bus, Bus::Sandbox);
    assert_eq!(raw, msg.raw);

    let msg = daemon_msg(1, 5, vec![], &[]);
    assert!(matches!(rewrite_unique_name_request(&msg), Err(Error::NoBody)));

    // A length that runs past the end of the message.
    let msg = daemon_msg(1, 5, vec![], &[50, 0, 0, 0, b'a']);
    assert!(matches!(rewrite_unique_name_request(&msg), Err(Error::InvalidBodyString)));
}

#[test]
fn match_rule_body_loses_the_fake_sender() {
    let msg = daemon_msg(1, 5, vec![], &body_of(&"type='signal',sender=':h.1.45',member='X'"));
    let out = rewrite_match_rule_body(&msg).unwrap().unwrap();
    assert_eq!(
        reparse(out).extract_string_from_body().as_deref(),
        Some("type='signal',sender=':1.45',member='X'")
    );
    let msg = daemon_msg(1, 5, vec![], &body_of(&"type='signal',sender='org.a.B'"));
    assert!(rewrite_match_rule_body(&msg).unwrap().is_none());
}

#[test]
fn string_arrays_are_read_and_rewritten() {
    let names = vec![":1.4".to_string(), "org.a.B".to_string()];
    let msg = daemon_msg(2, 5, vec![], &body_of(&names));
    assert_eq!(parse_string_array(&msg).unwrap(), names);

    let out = reparse(rewrite_string_array_response(&msg, Bus::Host).unwrap());
    assert_eq!(parse_string_array(&out).unwrap(), vec![":h.1.4", "org.a.B"]);
    let out = reparse(rewrite_list_names_response(&msg, Bus::Sandbox).unwrap());
    assert_eq!(parse_string_array(&out).unwrap(), vec![":s.1.4", "org.a.B"]);

    // No body: an empty list, and the bytes unchanged.
    let empty = daemon_msg(2, 5, vec![], &[]);
    assert!(parse_string_array(&empty).unwrap().is_empty());
    assert_eq!(rewrite_string_array_response(&empty, Bus::Host).unwrap(), empty.raw);
    assert_eq!(rewrite_list_names_response(&empty, Bus::Host).unwrap(), empty.raw);
}

#[test]
fn name_owner_changed_owners_get_the_prefix() {
    let msg = daemon_msg(4, 5, vec![], &body_of(&("org.a.B", ":1.1", "")));
    let out = reparse(rewrite_name_owner_changed(&msg, Bus::Host).unwrap());
    let body = &out.raw[out.body_start()..];
    let data = zvariant::serialized::Data::new(body, Context::new_dbus(LE, 0));
    let (triple, _): ((String, String, String), usize) = data.deserialize().unwrap();
    assert_eq!(triple, ("org.a.B".to_string(), ":h.1.1".to_string(), String::new()));
}

#[test]
fn list_names_reply_answers_the_request() {
    let request = daemon_msg(1, 7, vec![], &[]);
    let names = vec!["a".to_string(), ":s.1.2".to_string()];
    let raw = build_list_names_response(&request, names.clone()).unwrap();
    assert_eq!(&raw[..4], &[b'l', 2, 1, 1]);
    assert_eq!(u32::from_le_bytes([raw[8], raw[9], raw[10], raw[11]]), 1_000_007);
    let reply = reparse(raw);
    assert_eq!(reply.header.reply_serial, Some(7));
    assert_eq!(reply.header.signature.as_deref(), Some("as"));
    assert_eq!(parse_string_array(&reply).unwrap(), names);
}

#[test]
fn match_rule_with_invalid_utf8_is_read_lossily() {
    let mut rule = vec![0xffu8];
    rule.extend_from_slice(b"x,sender=':h.1.2'");
    let mut body = (rule.len() as u32).to_le_bytes().to_vec();
    body.extend_from_slice(&rule);
    body.push(0);
    let msg = daemon_msg(1, 5, vec![], &body);
    let out = reparse(rewrite_match_rule_body(&msg).unwrap().unwrap());
    assert_eq!(
        out.extract_string_from_body().as_deref(),
        Some("\u{FFFD}x,sender=':1.2'")
    );
}

#[test]
fn method_return_signature_must_fit_its_length_byte() {
    let request = daemon_msg(1, 7, vec![], &[]);
    let long = "s".repeat(300);
    assert!(matches!(build_method_return(&request, &[], Some(&long)), Err(Error::Encoding)));
    let raw = build_method_return(&request, &[0, 0, 0, 0], Some("u")).unwrap();
    let reply = reparse(raw);
    assert_eq!(reply.header.reply_serial, Some(7));
    assert_eq!(reply.header.signature.as_deref(), Some("u"));
}

#[test]
fn string_arrays_of_ordinary_names_fit_their_length() {
    assert!(string_array_fits_u32(&vec![]));
    assert!(string_array_fits_u32(&vec!["org.a".to_string(), ":h.1.2".to_string()]));
}
