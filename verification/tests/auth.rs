use dbus_router::auth::{
    auth_line_complete, auth_line_room, check_auth_reply, check_hello_reply, check_name_acquired,
    check_null_byte, external_auth_command, is_agree_unix_fd, is_begin_line, is_error_line,
    is_negotiate_unix_fd, AuthPassthrough, AUTH_BUFFER_SIZE,
};
use dbus_router::message::MessageType;
use dbus_router::Error;

#[test]
fn test_is_begin_line() {
    assert!(is_begin_line(b"BEGIN\r\n"));
    assert!(is_begin_line(b"BEGIN"));
    assert!(!is_begin_line(b"AUTH EXTERNAL\r\n"));
    assert!(!is_begin_line(b"OK\r\n"));
}

#[test]
fn test_is_negotiate_unix_fd() {
    assert!(is_negotiate_unix_fd(b"NEGOTIATE_UNIX_FD\r\n"));
    assert!(!is_negotiate_unix_fd(b"BEGIN\r\n"));
}

#[test]
fn test_is_agree_unix_fd() {
    assert!(is_agree_unix_fd(b"AGREE_UNIX_FD\r\n"));
    assert!(!is_agree_unix_fd(b"ERROR\r\n"));
}

#[test]
fn test_is_error_line() {
    assert!(is_error_line(b"ERROR\r\n"));
    assert!(is_error_line(b"ERROR something\r\n"));
    assert!(!is_error_line(b"OK\r\n"));
}

#[test]
fn external_auth_command_hex_encodes_decimal_uid() {
    assert_eq!(external_auth_command(1000), b"AUTH EXTERNAL 31303030\r\n".to_vec());
    assert_eq!(external_auth_command(0), b"AUTH EXTERNAL 30\r\n".to_vec());
    assert_eq!(
        external_auth_command(4294967295),
        b"AUTH EXTERNAL 34323934393637323935\r\n".to_vec()
    );
}

#[test]
fn auth_reply_ok_and_rejected() {
    assert!(check_auth_reply("OK 1234deadbeef\r\n").is_ok());
    match check_auth_reply("  REJECTED EXTERNAL\r\n") {
        Err(Error::AuthRejected(s)) => assert_eq!(s, "REJECTED EXTERNAL"),
        other => panic!("unexpected {:?}", other),
    }
}

#[test]
fn hello_reply_checks() {
    assert!(check_hello_reply(Some(MessageType::MethodReturn)).is_ok());
    assert!(matches!(check_hello_reply(Some(MessageType::Error)), Err(Error::HelloFailed)));
    assert!(matches!(
        check_hello_reply(Some(MessageType::Signal)),
        Err(Error::UnexpectedHelloReply(MessageType::Signal))
    ));
    assert!(matches!(check_hello_reply(None), Err(Error::HelloDisconnected)));
    assert!(check_name_acquired(Some(MessageType::Signal)).is_ok());
    assert!(check_name_acquired(Some(MessageType::MethodCall)).is_ok());
    assert!(matches!(check_name_acquired(None), Err(Error::HelloDisconnected)));
}

#[test]
fn auth_line_limits() {
    assert!(auth_line_complete(b"OK\r\n"));
    assert!(!auth_line_complete(b"OK\r"));
    assert!(!auth_line_complete(b"\n"));
    assert!(auth_line_room(AUTH_BUFFER_SIZE - 1).is_ok());
    assert!(matches!(auth_line_room(AUTH_BUFFER_SIZE), Err(Error::AuthLineTooLong)));
}

#[test]
fn null_byte_checks() {
    assert!(check_null_byte(1, 0).is_ok());
    assert!(matches!(check_null_byte(0, 0), Err(Error::AuthDisconnected)));
    assert!(matches!(check_null_byte(1, b'A'), Err(Error::ExpectedNullByte(65))));
}

#[test]
fn passthrough_waits_for_every_negotiation_answer() {
    let mut st = AuthPassthrough::new();
    assert!(st.reads_client());
    st.on_client_line(b"AUTH EXTERNAL 31303030\r\n").unwrap();
    st.on_bus_line(b"OK 1234\r\n").unwrap();
    assert_eq!(st.pending_responses, 0);
    st.on_client_line(b"NEGOTIATE_UNIX_FD\r\n").unwrap();
    assert_eq!(st.pending_responses, 1);
    st.on_client_line(b"BEGIN\r\n").unwrap();
    assert!(!st.reads_client());
    assert!(!st.is_complete());
    st.on_bus_line(b"AGREE_UNIX_FD\r\n").unwrap();
    assert!(st.is_complete());
    assert!(matches!(st.on_bus_line(b""), Err(Error::AuthDisconnected)));
    assert!(matches!(st.on_client_line(b""), Err(Error::AuthDisconnected)));
}

#[test]
fn passthrough_error_answer_counts_and_never_goes_negative() {
    let mut st = AuthPassthrough::new();
    st.on_client_line(b"NEGOTIATE_UNIX_FD\r\n").unwrap();
    st.on_bus_line(b"ERROR not supported\r\n").unwrap();
    assert_eq!(st.pending_responses, 0);
    st.on_bus_line(b"AGREE_UNIX_FD\r\n").unwrap();
    assert_eq!(st.pending_responses, 0);
}

#[test]
fn answer_before_the_negotiation_does_not_complete_the_run() {
    let mut st = AuthPassthrough::new();
    st.on_bus_line(b"AGREE_UNIX_FD\r\n").unwrap();
    st.on_client_line(b"NEGOTIATE_UNIX_FD\r\n").unwrap();
    st.on_client_line(b"BEGIN\r\n").unwrap();
    assert!(!st.is_complete());
    st.on_bus_line(b"AGREE_UNIX_FD\r\n").unwrap();
    assert!(st.is_complete());
}
