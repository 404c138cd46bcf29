use dbus_router::socket::{
    check_fds_available, check_received_fds, check_send_fds, declared_fd_count, RecvBuffer, WriteProgress,
    COMPACT_THRESHOLD, MAX_FDS_PER_MESSAGE,
};
use dbus_router::Error;

#[test]
fn recv_buffer_appends_and_consumes_in_order() {
    let mut b = RecvBuffer::new();
    assert_eq!(b.avail(), 0);
    b.append(b"hello ");
    b.append(b"world");
    assert_eq!(b.avail(), 11);
    assert_eq!(b.head(5), b"hello");
    b.consume(6);
    assert_eq!(b.head(5), b"world");
    b.consume(5);
    assert_eq!(b.avail(), 0);
    b.append(b"x");
    assert_eq!(b.head(1), b"x");
}

#[test]
fn recv_buffer_keeps_unconsumed_bytes_across_compaction() {
    let mut b = RecvBuffer::new();
    let big = vec![7u8; COMPACT_THRESHOLD + 10];
    b.append(&big);
    b.append(b"tail");
    b.consume(COMPACT_THRESHOLD + 10);
    assert_eq!(b.avail(), 4);
    assert_eq!(b.head(4), b"tail");
}

#[test]
fn declared_fds_within_limit() {
    assert_eq!(declared_fd_count(None).unwrap(), 0);
    assert_eq!(declared_fd_count(Some(3)).unwrap(), 3);
    assert_eq!(declared_fd_count(Some(64)).unwrap(), MAX_FDS_PER_MESSAGE);
    assert!(matches!(declared_fd_count(Some(65)), Err(Error::TooManyFds(65))));
}

#[test]
fn fds_must_have_arrived() {
    assert!(check_fds_available(2, 2).is_ok());
    assert!(check_fds_available(3, 0).is_ok());
    assert!(matches!(
        check_fds_available(1, 2),
        Err(Error::MissingFds { declared: 2, queued: 1 })
    ));
}

#[test]
fn received_fds_limits() {
    assert!(check_received_fds(0, 64, false).is_ok());
    assert!(matches!(check_received_fds(60, 5, false), Err(Error::FdOverflow)));
    assert!(matches!(check_received_fds(0, 1, true), Err(Error::FdOverflow)));
    assert!(check_send_fds(64).is_ok());
    assert!(matches!(check_send_fds(65), Err(Error::TooManyFds(65))));
}

#[test]
fn fds_go_with_the_first_accepted_write_only() {
    let mut p = WriteProgress::new(10, true);
    assert!(!p.done());
    assert!(p.attach_fds());
    assert!(matches!(p.advance(0), Err(Error::WriteZero)));
    assert!(p.attach_fds());
    p.advance(4).unwrap();
    assert!(!p.attach_fds());
    assert_eq!(p.off, 4);
    p.advance(6).unwrap();
    assert!(p.done());
    let q = WriteProgress::new(3, false);
    assert!(!q.attach_fds());
}
