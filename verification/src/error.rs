//! Errors of the router's own logic.

use vstd::prelude::*;

verus! {

/// What went wrong in parsing, rewriting or the protocol handshakes.
#[derive(Debug, Clone)]
pub enum Error {
    /// The first byte of a message is neither `l` nor `B`.
    InvalidEndian(u8),
    /// The protocol version byte is not 1.
    UnsupportedVersion(u8),
    /// The body length exceeds the message size limit.
    BodyTooLarge(u32),
    /// The header fields array length exceeds the message size limit.
    FieldsTooLarge(u32),
    /// A message declares more unix fds than the per-message limit.
    TooManyFds(u32),
    /// A message declares more fds than were received with it.
    MissingFds { declared: usize, queued: usize },
    /// A socket accepted none of the bytes of a write.
    WriteZero,
    /// Received descriptors overflowed the control buffer or the fd limit.
    FdOverflow,
    /// The header fields array, or the padding after it, is not within the
    /// message, or does not follow the D-Bus layout.
    MalformedHeader,
    /// A method call that should carry a body argument has no body.
    NoBody,
    /// The string argument in a body runs past the end of the message.
    InvalidBodyString,
    /// Serialising a value into the D-Bus format failed.
    Encoding,
    /// Only `unix:` addresses are supported; the address given.
    UnsupportedAddress(String),
    /// A `unix:` address names neither `path=` nor `abstract=`; the address given.
    NoSocketInAddress(String),
    /// The host bus answered `Hello()` with an error.
    HelloFailed,
    /// The host bus answered `Hello()` with some other message type.
    UnexpectedHelloReply(crate::message::MessageType),
    /// The host bus went away during the `Hello()` exchange.
    HelloDisconnected,
    /// The host bus rejected the authentication; its reply line.
    AuthRejected(String),
    /// An authentication line exceeded the line buffer.
    AuthLineTooLong,
    /// The client's first byte was not the null credentials byte; its value.
    ExpectedNullByte(u8),
    /// A peer closed its side during authentication.
    AuthDisconnected,
}

} // verus!
