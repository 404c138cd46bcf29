use dbus_router::message::{message_from_wire, parse_header_fields, Message, Prologue};
use dbus_router::rewrite::{
    get_dbus_method_rewrite_info, parse_match_rule, parse_match_rule_interface, parse_match_rule_sender,
    rewrite_header_field, rewrite_match_rule_sender, rewrite_message_header, RewriteDirection,
};
use dbus_router::message::Endian;
use dbus_router::{Bus, Error};
use zvariant::{serialized::Context, to_bytes, ObjectPath, Value, LE};

#[test]
fn test_parse_match_rule_sender() {
    assert_eq!(
        parse_match_rule_sender("type='signal',sender='org.fcitx.Fcitx5'"),
        Some("org.fcitx.Fcitx5".to_string())
    );
    assert_eq!(parse_match_rule_sender("sender=':1.45',type='signal'"), Some(":1.45".to_string()));
    assert_eq!(parse_match_rule_sender("type='signal',interface='org.freedesktop.DBus'"), None);
}

#[test]
fn test_rewrite_match_rule_sender() {
    let rule = "type='signal',sender=':1.45',interface='org.test'";
    let rewritten = rewrite_match_rule_sender(rule, ":1.45", ":h.1.45");
    assert_eq!(rewritten, "type='signal',sender=':h.1.45',interface='org.test'");
}

#[test]
fn test_parse_match_rule() {
    let rule = "type='signal',sender='org.fcitx.Fcitx5',interface='org.fcitx.Fcitx5.Controller1',member='CurrentInputMethodChanged',path='/controller'";
    let info = parse_match_rule(rule);

    assert_eq!(info.msg_type, Some("signal".to_string()));
    assert_eq!(info.sender, Some("org.fcitx.Fcitx5".to_string()));
    assert_eq!(info.interface, Some("org.fcitx.Fcitx5.Controller1".to_string()));
    assert_eq!(info.member, Some("CurrentInputMethodChanged".to_string()));
    assert_eq!(info.path, Some("/controller".to_string()));
}

#[test]
fn test_get_dbus_method_rewrite_info() {
    assert!(get_dbus_method_rewrite_info("Hello").is_some());
    assert!(get_dbus_method_rewrite_info("GetNameOwner").is_some());
    assert!(get_dbus_method_rewrite_info("AddMatch").is_some());
    assert!(get_dbus_method_rewrite_info("ListNames").is_some());
    assert!(get_dbus_method_rewrite_info("SomeOtherMethod").is_none());
}

#[test]
fn test_rewrite_match_rule_with_fake_sender() {
    // Test rewriting match rule with fake unique name
    let rule = "type='signal',sender=':h.1.45',interface='org.test'";
    let rewritten = rewrite_match_rule_sender(rule, ":h.1.45", ":1.45");
    assert_eq!(rewritten, "type='signal',sender=':1.45',interface='org.test'");

    // Test with sandbox prefix
    let rule = "type='signal',sender=':s.1.23',member='Test'";
    let rewritten = rewrite_match_rule_sender(rule, ":s.1.23", ":1.23");
    assert_eq!(rewritten, "type='signal',sender=':1.23',member='Test'");
}

#[test]
fn test_parse_match_rule_with_fake_sender() {
    let rule = "type='signal',sender=':h.1.45',interface='org.test'";
    let sender = parse_match_rule_sender(rule);
    assert_eq!(sender, Some(":h.1.45".to_string()));

    let rule = "type='signal',sender=':s.1.23'";
    let sender = parse_match_rule_sender(rule);
    assert_eq!(sender, Some(":s.1.23".to_string()));
}

#[test]
fn match_rule_other_keys() {
    assert_eq!(
        parse_match_rule_interface("type='signal', interface='org.a.B' ,member='X'"),
        Some("org.a.B".to_string())
    );
    assert_eq!(parse_match_rule_interface("type='signal'"), None);
    let info = parse_match_rule("path_namespace='/org/a',destination=':1.2',arg0='x'");
    assert_eq!(info.path_namespace.as_deref(), Some("/org/a"));
    assert_eq!(info.destination.as_deref(), Some(":1.2"));
    assert!(info.sender.is_none());
}

#[test]
fn method_rewrite_info_positions() {
    let info = get_dbus_method_rewrite_info("AddMatch").unwrap();
    assert!(info.has_match_rule);
    let info = get_dbus_method_rewrite_info("GetNameOwner").unwrap();
    assert!(!info.has_match_rule);
    assert_eq!(info.unique_name_positions.len(), 1);
}

fn fields_msg(fields: Vec<(u8, Value)>, body: &[u8]) -> Message {
    let encoded = to_bytes(Context::new_dbus(LE, 12), &fields).unwrap();
    let mut raw = vec![b'l', 1, 0, 1];
    raw.extend_from_slice(&(body.len() as u32).to_le_bytes());
    raw.extend_from_slice(&1u32.to_le_bytes());
    raw.extend_from_slice(&encoded);
    while raw.len() % 8 != 0 {
        raw.push(0);
    }
    raw.extend_from_slice(body);
    let p = Prologue::parse(&raw[..16]).unwrap();
    message_from_wire(p, raw)
}

fn reread(raw: Vec<u8>) -> Message {
    let p = Prologue::parse(&raw[..16]).unwrap();
    message_from_wire(p, raw)
}

#[test]
fn header_field_rewrite_of_the_last_field() {
    let msg = fields_msg(
        vec![
            (1, Value::ObjectPath(ObjectPath::try_from("/p").unwrap())),
            (3, Value::Str("Member".into())),
            (6, Value::Str(":h.1.2".into())),
        ],
        &[],
    );
    let old_array_len = u32::from_le_bytes([msg.raw[12], msg.raw[13], msg.raw[14], msg.raw[15]]);
    let mut raw = msg.raw.clone();
    rewrite_header_field(&mut raw, Endian::Little, 6, ":1.2").unwrap();
    let array_len = u32::from_le_bytes([raw[12], raw[13], raw[14], raw[15]]);
    assert_eq!(array_len + 2, old_array_len);
    // The array shrinks from 47 to 45 bytes: the body still starts at 64.
    assert_eq!(raw.len(), msg.raw.len());
    assert_eq!(raw.len() % 8, 0);
    let fields = parse_header_fields(&raw[16..16 + array_len as usize], Endian::Little).unwrap();
    assert_eq!(fields.destination.as_deref(), Some(":1.2"));
    assert_eq!(fields.member.as_deref(), Some("Member"));
    assert_eq!(fields.path.as_deref(), Some("/p"));

    // A missing field leaves the bytes unchanged.
    let mut raw = msg.raw.clone();
    rewrite_header_field(&mut raw, Endian::Little, 7, ":x").unwrap();
    assert_eq!(raw, msg.raw);
}

#[test]
fn header_field_rewrite_recomputes_padding() {
    // One SENDER field ":1.5", empty body: 32 bytes.
    let mut raw = vec![
        b'l', 2, 0, 1, 0, 0, 0, 0, 1, 0, 0, 0, 13, 0, 0, 0, 7, 1, b's', 0, 4, 0, 0, 0, b':', b'1', b'.',
        b'5', 0, 0, 0, 0,
    ];
    assert!(rewrite_header_field(&mut raw, Endian::Little, 7, ":h.1.5").is_ok());
    assert_eq!(
        raw,
        vec![
            b'l', 2, 0, 1, 0, 0, 0, 0, 1, 0, 0, 0, 15, 0, 0, 0, 7, 1, b's', 0, 6, 0, 0, 0, b':', b'h', b'.',
            b'1', b'.', b'5', 0, 0,
        ]
    );
}

#[test]
fn header_field_scan_steps_over_u32_values() {
    // REPLY_SERIAL = 1, then SENDER ":1.5": 40 bytes.
    let mut raw = vec![
        b'l', 2, 0, 1, 0, 0, 0, 0, 2, 0, 0, 0, 21, 0, 0, 0, 5, 1, b'u', 0, 1, 0, 0, 0, 7, 1, b's', 0, 4, 0,
        0, 0, b':', b'1', b'.', b'5', 0, 0, 0, 0,
    ];
    assert!(rewrite_header_field(&mut raw, Endian::Little, 7, ":h.1.5").is_ok());
    assert_eq!(
        raw,
        vec![
            b'l', 2, 0, 1, 0, 0, 0, 0, 2, 0, 0, 0, 23, 0, 0, 0, 5, 1, b'u', 0, 1, 0, 0, 0, 7, 1, b's', 0, 6,
            0, 0, 0, b':', b'h', b'.', b'1', b'.', b'5', 0, 0,
        ]
    );
}

#[test]
fn header_field_rewrite_in_the_middle_keeps_later_fields() {
    let msg = fields_msg(
        vec![
            (5, Value::U32(77)),
            (6, Value::Str(":h.1.2".into())),
            (3, Value::Str("Member".into())),
            (8, Value::Signature(zvariant::Signature::try_from("su").unwrap())),
        ],
        &[9, 8, 7, 6],
    );
    let mut raw = msg.raw.clone();
    rewrite_header_field(&mut raw, Endian::Little, 6, ":1.2").unwrap();
    let array_len = u32::from_le_bytes([raw[12], raw[13], raw[14], raw[15]]) as usize;
    let body_start = (16 + array_len + 7) / 8 * 8;
    assert_eq!(&raw[body_start..], &[9, 8, 7, 6]);
    assert!(raw[16 + array_len..body_start].iter().all(|b| *b == 0));
    let fields = parse_header_fields(&raw[16..16 + array_len], Endian::Little).unwrap();
    assert_eq!(fields.destination.as_deref(), Some(":1.2"));
    assert_eq!(fields.member.as_deref(), Some("Member"));
    assert_eq!(fields.reply_serial, Some(77));
    let again = reread(raw);
    assert_eq!(again.header.destination.as_deref(), Some(":1.2"));
    assert_eq!(again.header.member.as_deref(), Some("Member"));
}

#[test]
fn header_field_truncated_is_an_error() {
    // The header fields array and its padding end beyond the message.
    let msg = fields_msg(vec![(6, Value::Str("a".into()))], &[]);
    let mut raw = msg.raw.clone();
    raw.truncate(22);
    raw[12] = 6;
    let before = raw.clone();
    assert!(matches!(
        rewrite_header_field(&mut raw, Endian::Little, 6, "b"),
        Err(Error::MalformedHeader)
    ));
    assert_eq!(raw, before);

    // A field whose variant signature is not one type code.
    let mut raw = vec![
        b'l', 2, 0, 1, 0, 0, 0, 0, 1, 0, 0, 0, 8, 0, 0, 0, 5, 2, b'u', b'u', 0, 0, 0, 0,
    ];
    let before = raw.clone();
    assert!(matches!(
        rewrite_header_field(&mut raw, Endian::Little, 7, ":h.1.5"),
        Err(Error::MalformedHeader)
    ));
    assert_eq!(raw, before);

    // A message shorter than its fixed header.
    let mut raw = vec![b'l', 2, 0];
    assert!(matches!(
        rewrite_header_field(&mut raw, Endian::Little, 7, ":x"),
        Err(Error::MalformedHeader)
    ));
}

#[test]
fn message_header_rewrite_both_directions() {
    let mut msg = fields_msg(
        vec![
            (1, Value::ObjectPath(ObjectPath::try_from("/p").unwrap())),
            (6, Value::Str(":h.1.2".into())),
        ],
        &[],
    );
    rewrite_message_header(&mut msg, RewriteDirection::ToUpstream, Bus::Host).unwrap();
    assert_eq!(msg.header.destination.as_deref(), Some(":1.2"));
    assert_eq!(reread(msg.raw.clone()).header.destination.as_deref(), Some(":1.2"));

    let mut msg = fields_msg(
        vec![
            (1, Value::ObjectPath(ObjectPath::try_from("/p").unwrap())),
            (7, Value::Str(":1.9".into())),
        ],
        &[],
    );
    rewrite_message_header(&mut msg, RewriteDirection::ToClient, Bus::Sandbox).unwrap();
    assert_eq!(msg.header.sender.as_deref(), Some(":s.1.9"));
    assert_eq!(reread(msg.raw.clone()).header.sender.as_deref(), Some(":s.1.9"));

    // Nothing to do: a well-known sender, a real destination.
    let mut msg = fields_msg(vec![(7, Value::Str("org.a.B".into()))], &[]);
    let before = msg.raw.clone();
    rewrite_message_header(&mut msg, RewriteDirection::ToClient, Bus::Host).unwrap();
    assert_eq!(msg.raw, before);
}
