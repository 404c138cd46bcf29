use dbus_router::format::{body_signature, format_body_by_signature, format_message_header, format_message_summary};
use dbus_router::message::{Endian, Message, MessageHeader, MessageType};
use dbus_router::Bus;
use zvariant::{serialized::Context, to_bytes, LE};

fn header(
    msg_type: MessageType,
    serial: u32,
    destination: Option<&str>,
    reply_serial: Option<u32>,
    sender: Option<&str>,
    interface: Option<&str>,
    member: Option<&str>,
    path: Option<&str>,
) -> Message {
    Message {
        header: MessageHeader {
            endian: Endian::Little,
            msg_type,
            flags: 0,
            serial,
            body_len: 0,
            destination: destination.map(|s| s.to_string()),
            reply_serial,
            sender: sender.map(|s| s.to_string()),
            interface: interface.map(|s| s.to_string()),
            member: member.map(|s| s.to_string()),
            path: path.map(|s| s.to_string()),
            signature: None,
            unix_fds: None,
        },
        raw: vec![],
    }
}

#[test]
fn test_format_message_method_call() {
    let msg = header(
        MessageType::MethodCall,
        42,
        Some("org.freedesktop.DBus"),
        None,
        Some(":1.45"),
        Some("org.freedesktop.DBus"),
        Some("Hello"),
        Some("/org/freedesktop/DBus"),
    );

    let formatted = format_message_header(&msg, "->", Some(Bus::Host));
    assert!(formatted.contains("method_call"));
    assert!(formatted.contains("sender=:1.45"));
    assert!(formatted.contains("dest=org.freedesktop.DBus"));
    assert!(formatted.contains("serial=42"));
    assert!(formatted.contains("path=/org/freedesktop/DBus"));
    assert!(formatted.contains("member=Hello"));
    assert!(formatted.contains("[H]"));
}

#[test]
fn test_format_message_method_return() {
    let msg = header(MessageType::MethodReturn, 100, Some(":1.45"), Some(42), Some(":1.1"), None, None, None);

    let formatted = format_message_header(&msg, "<-", None);
    assert!(formatted.contains("method_return"));
    assert!(formatted.contains("reply_to=42"));
    assert!(formatted.contains("serial=100"));
}

#[test]
fn test_format_message_signal() {
    let msg = header(
        MessageType::Signal,
        50,
        None,
        None,
        Some(":1.3"),
        Some("org.freedesktop.DBus"),
        Some("NameOwnerChanged"),
        Some("/org/freedesktop/DBus"),
    );

    let formatted = format_message_header(&msg, "->", Some(Bus::Sandbox));
    assert!(formatted.contains("signal"));
    assert!(formatted.contains("dest=(broadcast)"));
    assert!(formatted.contains("[S]"));
    assert!(formatted.contains("member=NameOwnerChanged"));
}

#[test]
fn header_line_exact_text() {
    let msg = header(
        MessageType::MethodCall,
        42,
        Some("org.fcitx.Fcitx5"),
        None,
        Some(":1.45"),
        None,
        Some("Activate"),
        Some("/org/fcitx/Fcitx5"),
    );
    assert_eq!(
        format_message_header(&msg, "->", Some(Bus::Host)),
        "method_call sender=:1.45 -> dest=org.fcitx.Fcitx5 [H] (->) serial=42 path=/org/fcitx/Fcitx5 member=Activate"
    );
    let msg = header(MessageType::Error, 7, None, Some(3), None, None, None, None);
    assert_eq!(
        format_message_header(&msg, "<-", None),
        "error sender=(unknown) -> dest=(broadcast) (<-) serial=7 reply_to=3"
    );
}

#[test]
fn summary_line() {
    let msg = header(
        MessageType::MethodCall,
        12,
        Some("org.freedesktop.DBus"),
        None,
        Some(":1.4"),
        Some("org.freedesktop.DBus"),
        Some("Hello"),
        None,
    );
    assert_eq!(
        format_message_summary(&msg),
        "CALL org.freedesktop.DBus.Hello [:1.4->org.freedesktop.DBus] serial=12"
    );
    let msg = header(MessageType::Signal, 0, None, None, None, None, None, None);
    assert_eq!(format_message_summary(&msg), "SIGNAL -.- [-->-] serial=0");
}

#[test]
fn body_formatting_by_signature() {
    let b = to_bytes(Context::new_dbus(LE, 0), &"hi").unwrap();
    assert_eq!(format_body_by_signature(&b, "s", Endian::Little).as_deref(), Some("   string \"hi\""));
    let b = to_bytes(Context::new_dbus(LE, 0), &7u32).unwrap();
    assert_eq!(format_body_by_signature(&b, "u", Endian::Little).as_deref(), Some("   uint32 7"));
    let b = to_bytes(Context::new_dbus(LE, 0), &("n", 2u32)).unwrap();
    assert_eq!(
        format_body_by_signature(&b, "su", Endian::Little).as_deref(),
        Some("   string \"n\"\n   uint32 2")
    );
    let b = to_bytes(Context::new_dbus(LE, 0), &("k", "v")).unwrap();
    assert_eq!(
        format_body_by_signature(&b, "ss", Endian::Little).as_deref(),
        Some("   string \"k\"\n   string \"v\"")
    );
    assert!(format_body_by_signature(&b[..3], "ss", Endian::Little).is_none());
    let b = to_bytes(Context::new_dbus(LE, 0), &("a", "b", "c")).unwrap();
    assert_eq!(
        format_body_by_signature(&b, "sss", Endian::Little).as_deref(),
        Some("   string \"a\"\n   string \"b\"\n   string \"c\"")
    );
    let names = vec!["x".to_string(), "y".to_string()];
    let b = to_bytes(Context::new_dbus(LE, 0), &names).unwrap();
    assert_eq!(
        format_body_by_signature(&b, "as", Endian::Little).as_deref(),
        Some("   array [\n      string \"x\",\n      string \"y\"\n   ]")
    );
    let empty: Vec<String> = vec![];
    let b = to_bytes(Context::new_dbus(LE, 0), &empty).unwrap();
    assert_eq!(format_body_by_signature(&b, "as", Endian::Little).as_deref(), Some("   array []"));
    assert!(format_body_by_signature(&b, "a{sv}", Endian::Little).is_none());
}

#[test]
fn body_signature_needs_body_and_signature() {
    let mut msg = header(MessageType::Signal, 1, None, None, None, None, None, None);
    assert!(body_signature(&msg).is_none());
    msg.header.body_len = 4;
    assert!(body_signature(&msg).is_none());
    msg.header.signature = Some(String::new());
    assert!(body_signature(&msg).is_none());
    msg.header.signature = Some("u".to_string());
    assert_eq!(body_signature(&msg).as_deref(), Some("u"));
}
