use dbus_router::message::{
    message_from_wire, parse_header_fields, Endian, Message, MessageHeader, MessageType, Prologue,
};
use dbus_router::Error;
use zvariant::{serialized::Context, to_bytes, ObjectPath, Value, LE};

fn request_name_message(destination: &str, member: &str) -> Message {
    Message {
        header: MessageHeader {
            endian: Endian::Little,
            msg_type: MessageType::MethodCall,
            flags: 0,
            serial: 1,
            body_len: 0,
            destination: Some(destination.to_string()),
            reply_serial: None,
            sender: None,
            interface: Some("org.freedesktop.DBus".to_string()),
            member: Some(member.to_string()),
            path: None,
            signature: None,
            unix_fds: None,
        },
        raw: vec![],
    }
}

#[test]
fn message_test_endian_read_u32() {
    let le = Endian::Little;
    let be = Endian::Big;

    // 0x12345678 in little-endian
    let le_bytes = [0x78, 0x56, 0x34, 0x12];
    assert_eq!(le.read_u32(&le_bytes), 0x12345678);

    // 0x12345678 in big-endian
    let be_bytes = [0x12, 0x34, 0x56, 0x78];
    assert_eq!(be.read_u32(&be_bytes), 0x12345678);
}

#[test]
fn test_endian_read_u32() {
    let le = Endian::Little;
    let be = Endian::Big;

    // 0x12345678 in little-endian
    let le_bytes = [0x78, 0x56, 0x34, 0x12];
    assert_eq!(le.read_u32(&le_bytes), 0x12345678);

    // 0x12345678 in big-endian
    let be_bytes = [0x12, 0x34, 0x56, 0x78];
    assert_eq!(be.read_u32(&be_bytes), 0x12345678);
}

#[test]
fn message_test_message_type() {
    assert_eq!(MessageType::from(1), MessageType::MethodCall);
    assert_eq!(MessageType::from(2), MessageType::MethodReturn);
    assert_eq!(MessageType::from(3), MessageType::Error);
    assert_eq!(MessageType::from(4), MessageType::Signal);
    assert_eq!(MessageType::from(0), MessageType::Invalid);
    assert_eq!(MessageType::from(255), MessageType::Invalid);
}

#[test]
fn test_message_type() {
    assert_eq!(MessageType::from(1), MessageType::MethodCall);
    assert_eq!(MessageType::from(2), MessageType::MethodReturn);
    assert_eq!(MessageType::from(3), MessageType::Error);
    assert_eq!(MessageType::from(4), MessageType::Signal);
    assert_eq!(MessageType::from(0), MessageType::Invalid);
    assert_eq!(MessageType::from(255), MessageType::Invalid);
}

#[test]
fn message_test_is_request_name() {
    let msg = request_name_message("org.freedesktop.DBus", "RequestName");
    assert!(msg.is_request_name());

    // Not a RequestName - different member
    let msg2 = request_name_message("org.freedesktop.DBus", "Hello");
    assert!(!msg2.is_request_name());

    // Not a RequestName - different destination
    let msg3 = request_name_message("org.example.Service", "RequestName");
    assert!(!msg3.is_request_name());
}

#[test]
fn test_is_request_name() {
    let msg = request_name_message("org.freedesktop.DBus", "RequestName");
    assert!(msg.is_request_name());

    // Not a RequestName - different member
    let msg2 = request_name_message("org.freedesktop.DBus", "Hello");
    assert!(!msg2.is_request_name());

    // Not a RequestName - different destination
    let msg3 = request_name_message("org.example.Service", "RequestName");
    assert!(!msg3.is_request_name());
}

#[test]
fn message_test_parse_header_fields_with_path() {
    // Header fields are a(yv) - array of (byte field_code, variant value)
    let path = ObjectPath::try_from("/org/freedesktop/DBus").unwrap();
    let fields: Vec<(u8, Value)> = vec![
        (1, Value::ObjectPath(path)),                               // PATH
        (6, Value::Str("org.freedesktop.DBus".to_string().into())), // DESTINATION
    ];

    // Use position 12 to match actual D-Bus header layout
    let ctxt = Context::new_dbus(LE, 12);
    let encoded = to_bytes(ctxt, &fields).unwrap();

    // parse_header_fields expects just the array content (no length prefix)
    let buf = &encoded[4..];

    let parsed = parse_header_fields(buf, Endian::Little).unwrap();
    assert_eq!(parsed.destination, Some("org.freedesktop.DBus".to_string()));
}

#[test]
fn test_parse_header_fields_with_path() {
    // Header fields are a(yv) - array of (byte field_code, variant value)
    let path = ObjectPath::try_from("/org/freedesktop/DBus").unwrap();
    let fields: Vec<(u8, Value)> = vec![
        (1, Value::ObjectPath(path)),                               // PATH
        (6, Value::Str("org.freedesktop.DBus".to_string().into())), // DESTINATION
    ];

    // Use position 12 to match actual D-Bus header layout
    let ctxt = Context::new_dbus(LE, 12);
    let encoded = to_bytes(ctxt, &fields).unwrap();

    // parse_header_fields expects just the array content (no length prefix)
    let buf = &encoded[4..];

    let parsed = parse_header_fields(buf, Endian::Little).unwrap();
    assert_eq!(parsed.destination, Some("org.freedesktop.DBus".to_string()));
}

#[test]
fn header_fields_pick_out_every_field() {
    let fields: Vec<(u8, Value)> = vec![
        (1, Value::ObjectPath(ObjectPath::try_from("/a/b").unwrap())),
        (2, Value::Str("org.example.Iface".into())),
        (3, Value::Str("Frob".into())),
        (5, Value::U32(77)),
        (6, Value::Str(":1.2".into())),
        (7, Value::Str(":1.3".into())),
        (8, Value::Signature(zvariant::Signature::try_from("su").unwrap())),
        (9, Value::U32(2)),
    ];
    let encoded = to_bytes(Context::new_dbus(LE, 12), &fields).unwrap();
    let parsed = parse_header_fields(&encoded[4..], Endian::Little).unwrap();
    assert_eq!(parsed.path.as_deref(), Some("/a/b"));
    assert_eq!(parsed.interface.as_deref(), Some("org.example.Iface"));
    assert_eq!(parsed.member.as_deref(), Some("Frob"));
    assert_eq!(parsed.reply_serial, Some(77));
    assert_eq!(parsed.destination.as_deref(), Some(":1.2"));
    assert_eq!(parsed.sender.as_deref(), Some(":1.3"));
    assert_eq!(parsed.signature.as_deref(), Some("su"));
    assert_eq!(parsed.unix_fds, Some(2));
}

#[test]
fn undecodable_header_fields_leave_every_field_absent() {
    let parsed = parse_header_fields(&[1, 2, 3], Endian::Little).unwrap();
    assert!(parsed.destination.is_none());
    assert!(parsed.member.is_none());
    assert!(parsed.reply_serial.is_none());
}

fn prologue_bytes(endian: u8, version: u8, body_len: u32, array_len: u32) -> Vec<u8> {
    let mut v = vec![endian, 1, 0, version];
    v.extend_from_slice(&body_len.to_le_bytes());
    v.extend_from_slice(&9u32.to_le_bytes());
    v.extend_from_slice(&array_len.to_le_bytes());
    v
}

#[test]
fn prologue_parse_accepts_and_measures() {
    let p = Prologue::parse(&prologue_bytes(b'l', 1, 5, 10)).unwrap();
    assert_eq!(p.endian, Endian::Little);
    assert_eq!(p.msg_type, MessageType::MethodCall);
    assert_eq!(p.serial, 9);
    assert_eq!(p.body_len, 5);
    assert_eq!(p.array_len, 10);
    assert_eq!(p.header_end(), 26);
    assert_eq!(p.padding(), 6);
    assert_eq!(p.total_len(), 37);
}

#[test]
fn prologue_parse_errors() {
    assert!(matches!(Prologue::parse(&prologue_bytes(b'x', 1, 0, 0)), Err(Error::InvalidEndian(b'x'))));
    assert!(matches!(Prologue::parse(&prologue_bytes(b'l', 2, 0, 0)), Err(Error::UnsupportedVersion(2))));
    assert!(matches!(
        Prologue::parse(&prologue_bytes(b'l', 1, 64 * 1024 * 1024 + 1, 0)),
        Err(Error::BodyTooLarge(67108865))
    ));
    assert!(matches!(
        Prologue::parse(&prologue_bytes(b'l', 1, 0, 64 * 1024 * 1024 + 1)),
        Err(Error::FieldsTooLarge(67108865))
    ));
    // Big endian reads the lengths the other way round.
    let mut be = vec![b'B', 4, 0, 1];
    be.extend_from_slice(&3u32.to_be_bytes());
    be.extend_from_slice(&7u32.to_be_bytes());
    be.extend_from_slice(&8u32.to_be_bytes());
    let p = Prologue::parse(&be).unwrap();
    assert_eq!(p.endian, Endian::Big);
    assert_eq!(p.msg_type, MessageType::Signal);
    assert_eq!((p.body_len, p.serial, p.array_len), (3, 7, 8));
}

#[test]
fn message_from_wire_reads_header_and_body() {
    let fields: Vec<(u8, Value)> = vec![
        (6, Value::Str("org.freedesktop.DBus".into())),
        (2, Value::Str("org.freedesktop.DBus".into())),
        (3, Value::Str("RequestName".into())),
        (8, Value::Signature(zvariant::Signature::try_from("su").unwrap())),
    ];
    let encoded = to_bytes(Context::new_dbus(LE, 12), &fields).unwrap();
    let body = to_bytes(Context::new_dbus(LE, 0), &("org.test.Svc", 4u32)).unwrap();
    let mut raw = vec![b'l', 1, 0, 1];
    raw.extend_from_slice(&(body.len() as u32).to_le_bytes());
    raw.extend_from_slice(&3u32.to_le_bytes());
    raw.extend_from_slice(&encoded);
    while raw.len() % 8 != 0 {
        raw.push(0);
    }
    raw.extend_from_slice(&body);
    let p = Prologue::parse(&raw[..16]).unwrap();
    assert_eq!(p.total_len(), raw.len());
    let msg = message_from_wire(p, raw);
    assert!(msg.is_request_name());
    assert_eq!(msg.header.serial, 3);
    assert_eq!(msg.header.signature.as_deref(), Some("su"));
    assert_eq!(msg.extract_name_from_body().as_deref(), Some("org.test.Svc"));
    assert_eq!(msg.extract_string_from_body().as_deref(), Some("org.test.Svc"));
    assert_eq!(msg.body_start() % 8, 0);
}

#[test]
fn u32_bytes_read_back() {
    for n in [0u32, 1, 0x12345678, u32::MAX] {
        assert_eq!(Endian::Little.read_u32(&Endian::Little.u32_bytes(n)), n);
        assert_eq!(Endian::Big.read_u32(&Endian::Big.u32_bytes(n)), n);
    }
    assert_eq!(Endian::Big.u32_bytes(0x01020304), vec![1, 2, 3, 4]);
    assert_eq!(Endian::Little.u32_bytes(0x01020304), vec![4, 3, 2, 1]);
}
