//! The buffering and file-descriptor bookkeeping of a D-Bus socket
//! connection. D-Bus carries file descriptors via SCM_RIGHTS ancillary
//! data; on the receiving side fds and message bytes arrive in the order
//! the sender wrote them, so received fds wait in a queue until a complete
//! message declares how many of them it takes. The system calls themselves
//! are the caller's; the decisions around them are here.

use vstd::prelude::*;
use crate::error::Error;
use crate::wire::{append_bytes, copy_range};

verus! {

/// Maximum fds accepted in a single message.
///
/// Matches the common D-Bus daemon limit (DBUS_MAXIMUM_MESSAGE_UNIX_FDS).
pub const MAX_FDS_PER_MESSAGE: usize = 64;

/// Once this many consumed bytes sit at the front of the buffer, they are
/// dropped even though unconsumed bytes remain.
pub const COMPACT_THRESHOLD: usize = 65536;

/// Bytes received from a socket but not yet consumed by message parsing.
pub struct RecvBuffer {
    buf: Vec<u8>,
    start: usize,
}

impl RecvBuffer {
    /// The buffer is consistent: the consumed prefix lies within it.
    pub closed spec fn wf(&self) -> bool {
        self.start <= self.buf@.len()
    }

    /// The bytes received and not yet consumed.
    pub closed spec fn view(&self) -> Seq<u8> {
        self.buf@.skip(self.start as int)
    }

    /// An empty buffer.
    pub fn new() -> (r: Self)
        ensures
            r.wf(),
            r@ == Seq::<u8>::empty(),
    {
        let r = RecvBuffer { buf: Vec::new(), start: 0 };
        assert(r@ =~= Seq::<u8>::empty());
        r
    }

    /// Number of buffered, unconsumed bytes.
    pub fn avail(&self) -> (r: usize)
        requires
            self.wf(),
        ensures
            r == self@.len(),
    {
        self.buf.len() - self.start
    }

    /// Add received bytes at the end.
    pub fn append(&mut self, bytes: &[u8])
        requires
            old(self).wf(),
        ensures
            final(self).wf(),
            final(self)@ == old(self)@ + bytes@,
    {
        append_bytes(&mut self.buf, bytes);
        assert(self.buf@.skip(self.start as int) =~= old(self).buf@.skip(self.start as int) + bytes@);
    }

    /// The first `n` unconsumed bytes.
    pub fn head(&self, n: usize) -> (r: &[u8])
        requires
            self.wf(),
            n <= self@.len(),
        ensures
            r@ == self@.take(n as int),
    {
        let _len = self.buf.len();
        let r = &self.buf.as_slice()[self.start..self.start + n];
        assert(r@ =~= self@.take(n as int));
        r
    }

    /// Consume `n` buffered bytes. When everything is consumed the buffer
    /// is emptied; when the consumed prefix grows past the threshold it is
    /// dropped, so that the buffer does not grow without bound.
    pub fn consume(&mut self, n: usize)
        requires
            old(self).wf(),
            n <= old(self)@.len(),
        ensures
            final(self).wf(),
            final(self)@ == old(self)@.skip(n as int),
    {
        let ghost before = self@;
        let len = self.buf.len();
        let start = self.start + n;
        if start == len {
            self.buf = Vec::new();
            self.start = 0;
            assert(self@ =~= before.skip(n as int));
        } else if start > COMPACT_THRESHOLD {
            let rest = copy_range(self.buf.as_slice(), start, len);
            self.buf = rest;
            self.start = 0;
            assert(self@ =~= before.skip(n as int));
        } else {
            self.start = start;
            assert(self@ =~= before.skip(n as int));
        }
    }
}

/// The number of fds a message declares in its UNIX_FDS header field
/// (none when the field is absent), refused beyond the per-message limit.
pub fn declared_fd_count(declared: Option<u32>) -> (r: Result<usize, Error>)
    ensures
        match declared {
            Some(d) => if d <= MAX_FDS_PER_MESSAGE {
                r == Ok::<usize, Error>(d as usize)
            } else {
                r == Err::<usize, Error>(Error::TooManyFds(d))
            },
            None => r == Ok::<usize, Error>(0),
        },
{
    let d = match declared {
        Some(d) => d,
        None => 0,
    };
    if d as usize > MAX_FDS_PER_MESSAGE {
        return Err(Error::TooManyFds(d));
    }
    Ok(d as usize)
}

/// Before taking `n` fds for a message from a queue of `queued`: a short
/// queue means the peer broke the protocol.
pub fn check_fds_available(queued: usize, n: usize) -> (r: Result<(), Error>)
    ensures
        r is Ok <==> n <= queued,
        r is Err ==> r == Err::<(), Error>(Error::MissingFds { declared: n, queued }),
{
    if queued < n {
        return Err(Error::MissingFds { declared: n, queued });
    }
    Ok(())
}

/// After one receive call that brought `received` fds: a truncated control
/// message, or more fds in the queue than one message may carry, is refused.
pub fn check_received_fds(queued: usize, received: usize, truncated: bool) -> (r: Result<(), Error>)
    ensures
        r is Ok <==> !truncated && queued + received <= MAX_FDS_PER_MESSAGE,
        r is Err ==> r == Err::<(), Error>(Error::FdOverflow),
{
    if truncated {
        return Err(Error::FdOverflow);
    }
    if queued > MAX_FDS_PER_MESSAGE || received > MAX_FDS_PER_MESSAGE - queued {
        return Err(Error::FdOverflow);
    }
    Ok(())
}

/// Before sending a message with `n` fds: more than one message may carry
/// is refused.
pub fn check_send_fds(n: usize) -> (r: Result<(), Error>)
    ensures
        r is Ok <==> n <= MAX_FDS_PER_MESSAGE,
        r is Err ==> r == Err::<(), Error>(Error::TooManyFds(n as u32)),
{
    if n > MAX_FDS_PER_MESSAGE {
        return Err(Error::TooManyFds(#[verifier::truncate] (n as u32)));
    }
    Ok(())
}

/// Progress of writing one message. The message's fds go with the first
/// write call only: once the socket has accepted any byte, the kernel has
/// delivered them, and the rest of the bytes are written without fds.
#[derive(Debug, Clone, Copy, PartialEq, Eq, Structural)]
pub struct WriteProgress {
    /// Bytes written so far.
    pub off: usize,
    /// Total bytes of the message.
    pub len: usize,
    /// The fds still have to be attached.
    pub fds_pending: bool,
}

impl WriteProgress {
    /// Nothing written yet.
    pub fn new(len: usize, has_fds: bool) -> (r: Self)
        ensures
            r.off == 0,
            r.len == len,
            r.fds_pending == has_fds,
    {
        WriteProgress { off: 0, len, fds_pending: has_fds }
    }

    /// The whole message has been written.
    pub fn done(&self) -> (r: bool)
        ensures
            r == (self.off >= self.len),
    {
        self.off >= self.len
    }

    /// The next write call carries the fds.
    pub fn attach_fds(&self) -> (r: bool)
        ensures
            r == self.fds_pending,
    {
        self.fds_pending
    }

    /// A write call accepted `n` bytes. Zero bytes is an error.
    pub fn advance(&mut self, n: usize) -> (r: Result<(), Error>)
        requires
            old(self).off <= old(self).len,
            n <= old(self).len - old(self).off,
        ensures
            n == 0 ==> r is Err && *final(self) == *old(self),
            n > 0 ==> r is Ok && final(self).off == old(self).off + n && final(self).len == old(self).len
                && !final(self).fds_pending,
    {
        if n == 0 {
            return Err(Error::WriteZero);
        }
        self.off = self.off + n;
        self.fds_pending = false;
        Ok(())
    }
}

} // verus!
