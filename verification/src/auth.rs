//! D-Bus authentication.
//!
//! The authentication protocol:
//! 1. The client sends a `\0` byte (carrying credentials via SCM_CREDENTIALS)
//! 2. A text-based protocol follows, with `\r\n` line endings
//! 3. The client may send NEGOTIATE_UNIX_FD to request FD passing
//! 4. The client sends `BEGIN\r\n` to end authentication
//!
//! The router passes the client's authentication through to the sandbox bus
//! and authenticates on its own with the host bus. The decisions of both
//! exchanges are here; reading and writing the sockets is the caller's.

use vstd::prelude::*;
use crate::error::Error;
use crate::message::MessageType;
use crate::text::{chars_of, has_prefix, spec_trim, string_of, trim_chars, ws};

verus! {

/// `line` starts with the bytes `p`.
pub open spec fn has_byte_prefix(line: Seq<u8>, p: Seq<u8>) -> bool {
    p.len() <= line.len() && line.subrange(0, p.len() as int) == p
}

/// The bytes of an ASCII keyword.
pub open spec fn ascii(s: Seq<char>) -> Seq<u8> {
    s.map_values(|c: char| c as u8)
}

fn bytes_have_prefix(line: &[u8], p: &[u8]) -> (r: bool)
    ensures
        r == has_byte_prefix(line@, p@),
{
    if p.len() > line.len() {
        return false;
    }
    let mut i: usize = 0;
    while i < p.len()
        invariant
            p@.len() <= line@.len(),
            i <= p@.len(),
            forall|j: int| 0 <= j < i ==> line@[j] == p@[j],
        decreases p.len() - i,
    {
        if line[i] != p[i] {
            assert(line@.subrange(0, p@.len() as int)[i as int] != p@[i as int]);
            return false;
        }
        i = i + 1;
    }
    assert(line@.subrange(0, p@.len() as int) =~= p@);
    true
}

/// `BEGIN`
pub open spec fn begin_bytes() -> Seq<u8> {
    seq![66u8, 69, 71, 73, 78]
}

/// `NEGOTIATE_UNIX_FD`
pub open spec fn negotiate_unix_fd_bytes() -> Seq<u8> {
    seq![78u8, 69, 71, 79, 84, 73, 65, 84, 69, 95, 85, 78, 73, 88, 95, 70, 68]
}

/// `AGREE_UNIX_FD`
pub open spec fn agree_unix_fd_bytes() -> Seq<u8> {
    seq![65u8, 71, 82, 69, 69, 95, 85, 78, 73, 88, 95, 70, 68]
}

/// `ERROR`
pub open spec fn error_bytes() -> Seq<u8> {
    seq![69u8, 82, 82, 79, 82]
}

/// Check if a line is the BEGIN command.
pub fn is_begin_line(line: &[u8]) -> (r: bool)
    ensures
        r == has_byte_prefix(line@, begin_bytes()),
{
    let p: [u8; 5] = [66, 69, 71, 73, 78];
    assert(p@ =~= begin_bytes());
    bytes_have_prefix(line, &p)
}

/// Check if a line is the NEGOTIATE_UNIX_FD command.
pub fn is_negotiate_unix_fd(line: &[u8]) -> (r: bool)
    ensures
        r == has_byte_prefix(line@, negotiate_unix_fd_bytes()),
{
    let p: [u8; 17] = [78, 69, 71, 79, 84, 73, 65, 84, 69, 95, 85, 78, 73, 88, 95, 70, 68];
    assert(p@ =~= negotiate_unix_fd_bytes());
    bytes_have_prefix(line, &p)
}

/// Check if a line is the AGREE_UNIX_FD response.
pub fn is_agree_unix_fd(line: &[u8]) -> (r: bool)
    ensures
        r == has_byte_prefix(line@, agree_unix_fd_bytes()),
{
    let p: [u8; 13] = [65, 71, 82, 69, 69, 95, 85, 78, 73, 88, 95, 70, 68];
    assert(p@ =~= agree_unix_fd_bytes());
    bytes_have_prefix(line, &p)
}

/// Check if a line is an ERROR response.
pub fn is_error_line(line: &[u8]) -> (r: bool)
    ensures
        r == has_byte_prefix(line@, error_bytes()),
{
    let p: [u8; 5] = [69, 82, 82, 79, 82];
    assert(p@ =~= error_bytes());
    bytes_have_prefix(line, &p)
}

/// Maximum length of one authentication line, `\r\n` included.
pub const AUTH_BUFFER_SIZE: usize = 4096;

/// `line` ends with `\r\n`.
pub open spec fn spec_line_complete(line: Seq<u8>) -> bool {
    line.len() >= 2 && line[line.len() - 2] == 13u8 && line[line.len() - 1] == 10u8
}

/// Check whether an authentication line read so far is complete.
pub fn auth_line_complete(line: &[u8]) -> (r: bool)
    ensures
        r == spec_line_complete(line@),
{
    let n = line.len();
    n >= 2 && line[n - 2] == 13u8 && line[n - 1] == 10u8
}

/// Before reading another byte of an authentication line of `len` bytes:
/// the line buffer must have room for it.
pub fn auth_line_room(len: usize) -> (r: Result<(), Error>)
    ensures
        r is Ok <==> len < AUTH_BUFFER_SIZE,
        r is Err ==> r == Err::<(), Error>(Error::AuthLineTooLong),
{
    if len >= AUTH_BUFFER_SIZE {
        Err(Error::AuthLineTooLong)
    } else {
        Ok(())
    }
}

/// Check the first byte the client sends: `n` bytes were read, `byte` is
/// the first of them. Zero bytes means the client went away, and any byte
/// other than `\0` is refused.
pub fn check_null_byte(n: usize, byte: u8) -> (r: Result<(), Error>)
    ensures
        n == 0 ==> r == Err::<(), Error>(Error::AuthDisconnected),
        n != 0 && byte != 0 ==> r == Err::<(), Error>(Error::ExpectedNullByte(byte)),
        n != 0 && byte == 0 ==> r is Ok,
{
    if n == 0 {
        return Err(Error::AuthDisconnected);
    }
    if byte != 0 {
        return Err(Error::ExpectedNullByte(byte));
    }
    Ok(())
}

/// A line of the authentication exchange: one the client sent, or one the
/// bus sent.
pub enum AuthLine {
    FromClient(Seq<u8>),
    FromBus(Seq<u8>),
}

/// The bus's line answers a pending command: AGREE_UNIX_FD or ERROR.
pub open spec fn is_answer(line: Seq<u8>) -> bool {
    has_byte_prefix(line, agree_unix_fd_bytes()) || has_byte_prefix(line, error_bytes())
}

/// Pending answers and BEGIN seen, after a non-empty client line.
pub open spec fn client_line_step(pending: int, begun: bool, line: Seq<u8>) -> (int, bool) {
    (
        pending + if has_byte_prefix(line, negotiate_unix_fd_bytes()) { 1int } else { 0int },
        begun || has_byte_prefix(line, begin_bytes()),
    )
}

/// Pending answers and BEGIN seen, after a non-empty bus line: an answer
/// takes one pending command off, never going below zero.
pub open spec fn bus_line_step(pending: int, begun: bool, line: Seq<u8>) -> (int, bool) {
    (if is_answer(line) && pending > 0 { pending - 1 } else { pending }, begun)
}

/// Pending answers and BEGIN seen after a run of lines, from a fresh
/// passthrough, each step as `on_client_line` / `on_bus_line` takes it.
pub open spec fn auth_after(lines: Seq<AuthLine>) -> (int, bool)
    decreases lines.len(),
{
    if lines.len() == 0 {
        (0, false)
    } else {
        let (p, b) = auth_after(lines.drop_last());
        match lines.last() {
            AuthLine::FromClient(l) => client_line_step(p, b, l),
            AuthLine::FromBus(l) => bus_line_step(p, b, l),
        }
    }
}

/// How many NEGOTIATE_UNIX_FD lines the client sent in a run.
pub open spec fn count_negotiations(lines: Seq<AuthLine>) -> int
    decreases lines.len(),
{
    if lines.len() == 0 {
        0
    } else {
        count_negotiations(lines.drop_last()) + match lines.last() {
            AuthLine::FromClient(l) => if has_byte_prefix(l, negotiate_unix_fd_bytes()) { 1int } else { 0int },
            AuthLine::FromBus(_) => 0int,
        }
    }
}

/// How many answers (AGREE_UNIX_FD or ERROR) the bus sent in a run.
pub open spec fn count_answers(lines: Seq<AuthLine>) -> int
    decreases lines.len(),
{
    if lines.len() == 0 {
        0
    } else {
        count_answers(lines.drop_last()) + match lines.last() {
            AuthLine::FromBus(l) => if is_answer(l) { 1int } else { 0int },
            AuthLine::FromClient(_) => 0int,
        }
    }
}

/// The client sent a BEGIN line in a run.
pub open spec fn client_sent_begin(lines: Seq<AuthLine>) -> bool {
    exists|i: int| 0 <= i < lines.len() && (#[trigger] lines[i] matches AuthLine::FromClient(l) && has_byte_prefix(l, begin_bytes()))
}

/// Over any run of the passthrough, the count of pending answers never
/// goes below zero and is at least the NEGOTIATE_UNIX_FD lines less the
/// answers, and BEGIN counts as seen exactly when the client sent it. So
/// a run that ends complete has had a BEGIN from the client and at least
/// one answer of the bus per NEGOTIATE_UNIX_FD.
pub proof fn law_auth_run(lines: Seq<AuthLine>)
    ensures
        auth_after(lines).0 >= 0,
        auth_after(lines).0 >= count_negotiations(lines) - count_answers(lines),
        auth_after(lines).1 <==> client_sent_begin(lines),
        auth_after(lines).0 == 0 && auth_after(lines).1 ==> client_sent_begin(lines) && count_answers(lines)
            >= count_negotiations(lines),
    decreases lines.len(),
{
    if lines.len() > 0 {
        let prev = lines.drop_last();
        law_auth_run(prev);
        if client_sent_begin(prev) {
            let i = choose|i: int| 0 <= i < prev.len() && (#[trigger] prev[i] matches AuthLine::FromClient(l) && has_byte_prefix(l, begin_bytes()));
            assert(lines[i] == prev[i]);
        }
        if client_sent_begin(lines) {
            let i = choose|i: int| 0 <= i < lines.len() && (#[trigger] lines[i] matches AuthLine::FromClient(l) && has_byte_prefix(l, begin_bytes()));
            if i < lines.len() - 1 {
                assert(prev[i] == lines[i]);
            }
        }
        if auth_after(lines).1 && !auth_after(prev).1 {
            assert(lines[lines.len() - 1] == lines.last());
        }
    }
}

/// State of the authentication passthrough between the client and a bus.
#[derive(Debug, Clone, Copy, PartialEq, Eq, Structural)]
pub struct AuthPassthrough {
    /// Commands sent by the client that still wait for the bus's answer
    /// (NEGOTIATE_UNIX_FD).
    pub pending_responses: u32,
    /// The client has sent BEGIN.
    pub begin_received: bool,
}

impl AuthPassthrough {
    /// No line exchanged yet.
    pub fn new() -> (r: Self)
        ensures
            r.pending_responses == 0,
            !r.begin_received,
    {
        AuthPassthrough { pending_responses: 0, begin_received: false }
    }

    /// The passthrough is over: the client has sent BEGIN and every
    /// NEGOTIATE_UNIX_FD has been answered.
    pub fn is_complete(&self) -> (r: bool)
        ensures
            r == (self.begin_received && self.pending_responses == 0),
    {
        self.begin_received && self.pending_responses == 0
    }

    /// Lines are still read from the client (until BEGIN).
    pub fn reads_client(&self) -> (r: bool)
        ensures
            r == !self.begin_received,
    {
        !self.begin_received
    }

    /// A line read from the client, to be forwarded to the bus. An empty
    /// line means the client went away. NEGOTIATE_UNIX_FD awaits one more
    /// answer; BEGIN ends the client's side.
    pub fn on_client_line(&mut self, line: &[u8]) -> (r: Result<(), Error>)
        requires
            has_byte_prefix(line@, negotiate_unix_fd_bytes()) ==> old(self).pending_responses < u32::MAX,
        ensures
            line@.len() == 0 ==> r == Err::<(), Error>(Error::AuthDisconnected) && *final(self) == *old(self),
            line@.len() != 0 ==> r is Ok,
            line@.len() != 0 ==> (final(self).pending_responses as int, final(self).begin_received) == client_line_step(
                old(self).pending_responses as int,
                old(self).begin_received,
                line@,
            ),
    {
        if line.len() == 0 {
            return Err(Error::AuthDisconnected);
        }
        if is_negotiate_unix_fd(line) {
            self.pending_responses = self.pending_responses + 1;
        }
        if is_begin_line(line) {
            self.begin_received = true;
        }
        Ok(())
    }

    /// A line read from the bus, to be forwarded to the client. An empty
    /// line means the bus went away. AGREE_UNIX_FD or ERROR answers one
    /// pending command (never going below zero).
    pub fn on_bus_line(&mut self, line: &[u8]) -> (r: Result<(), Error>)
        ensures
            line@.len() == 0 ==> r == Err::<(), Error>(Error::AuthDisconnected) && *final(self) == *old(self),
            line@.len() != 0 ==> r is Ok,
            line@.len() != 0 ==> (final(self).pending_responses as int, final(self).begin_received) == bus_line_step(
                old(self).pending_responses as int,
                old(self).begin_received,
                line@,
            ),
    {
        if line.len() == 0 {
            return Err(Error::AuthDisconnected);
        }
        if is_agree_unix_fd(line) || is_error_line(line) {
            self.pending_responses = self.pending_responses.saturating_sub(1);
        }
        Ok(())
    }
}

/// The character of a decimal digit.
pub open spec fn digit_char(d: nat) -> char {
    seq!['0', '1', '2', '3', '4', '5', '6', '7', '8', '9'][d as int]
}

fn digit(d: u32) -> (r: char)
    requires
        d < 10,
    ensures
        r == digit_char(d as nat),
{
    let digits = ['0', '1', '2', '3', '4', '5', '6', '7', '8', '9'];
    assert(digits@ =~= seq!['0', '1', '2', '3', '4', '5', '6', '7', '8', '9']);
    digits[d as usize]
}

/// Decimal digits of a number.
pub open spec fn spec_decimal(n: nat) -> Seq<char>
    decreases n,
{
    if n < 10 {
        seq![digit_char(n)]
    } else {
        spec_decimal(n / 10) + seq![digit_char(n % 10)]
    }
}

/// Decimal digits are the characters `0` to `9`.
pub proof fn lemma_decimal_digits(n: nat)
    ensures
        forall|i: int| 0 <= i < spec_decimal(n).len() ==> '0' <= #[trigger] spec_decimal(n)[i] <= '9',
    decreases n,
{
    let s = spec_decimal(n);
    if n >= 10 {
        lemma_decimal_digits(n / 10);
        lemma_digit_char((n % 10) as nat);
        assert forall|i: int| 0 <= i < s.len() implies '0' <= #[trigger] s[i] <= '9' by {
            if i < s.len() - 1 {
                assert(s[i] == spec_decimal(n / 10)[i]);
            }
        }
    } else {
        lemma_digit_char(n);
    }
}

proof fn lemma_digit_char(d: nat)
    requires
        d < 10,
    ensures
        '0' <= digit_char(d) <= '9',
{
    let t = seq!['0', '1', '2', '3', '4', '5', '6', '7', '8', '9'];
    assert(t[0] == '0' && t[1] == '1' && t[2] == '2' && t[3] == '3' && t[4] == '4');
    assert(t[5] == '5' && t[6] == '6' && t[7] == '7' && t[8] == '8' && t[9] == '9');
}

/// Decimal digits of a number.
pub fn decimal_chars(n: u32) -> (r: Vec<char>)
    ensures
        r@ == spec_decimal(n as nat),
    decreases n,
{
    if n < 10 {
        vec![digit(n)]
    } else {
        let mut r = decimal_chars(n / 10);
        r.push(digit(n % 10));
        r
    }
}

/// The lower-case hex digit of a value below 16.
pub open spec fn hex_digit(v: int) -> u8 {
    if v < 10 {
        (48 + v) as u8
    } else {
        (87 + v) as u8
    }
}

/// Two lower-case hex digits for each character of an ASCII string.
pub open spec fn spec_hex_ascii(s: Seq<char>) -> Seq<u8>
    decreases s.len(),
{
    if s.len() == 0 {
        Seq::empty()
    } else {
        spec_hex_ascii(s.drop_last()) + seq![hex_digit((s.last() as int) / 16), hex_digit((s.last() as int) % 16)]
    }
}

/// The command that authenticates with the EXTERNAL mechanism as user
/// `uid`: `AUTH EXTERNAL ` followed by the decimal digits of the uid,
/// hex-encoded, then `\r\n`.
pub open spec fn spec_external_auth_command(uid: u32) -> Seq<u8> {
    ascii("AUTH EXTERNAL "@) + spec_hex_ascii(spec_decimal(uid as nat)) + seq![13u8, 10u8]
}

/// Build the `AUTH EXTERNAL` command for user `uid`.
pub fn external_auth_command(uid: u32) -> (r: Vec<u8>)
    ensures
        r@ == spec_external_auth_command(uid),
{
    let prefix = chars_of("AUTH EXTERNAL ");
    let mut out: Vec<u8> = Vec::new();
    let mut i: usize = 0;
    proof {
        reveal_strlit("AUTH EXTERNAL ");
    }
    while i < prefix.len()
        invariant
            i <= prefix@.len(),
            prefix@ == "AUTH EXTERNAL "@,
            out@ == ascii(prefix@.take(i as int)),
        decreases prefix.len() - i,
    {
        out.push(prefix[i] as u8);
        i = i + 1;
        assert(out@ =~= ascii(prefix@.take(i as int)));
    }
    assert(prefix@.take(prefix@.len() as int) =~= prefix@);
    let digits = decimal_chars(uid);
    proof {
        lemma_decimal_digits(uid as nat);
    }
    let ghost head = out@;
    let mut j: usize = 0;
    assert(head + spec_hex_ascii(digits@.take(0)) =~= head);
    while j < digits.len()
        invariant
            j <= digits@.len(),
            out@ == head + spec_hex_ascii(digits@.take(j as int)),
            digits@ == spec_decimal(uid as nat),
            forall|i: int| 0 <= i < digits@.len() ==> '0' <= #[trigger] digits@[i] <= '9',
        decreases digits.len() - j,
    {
        let c = digits[j] as u32;
        assert(48 <= c <= 57);
        let hi = c / 16;
        let lo = c % 16;
        let dh: u8 = if hi < 10 { (48 + hi) as u8 } else { (87 + hi) as u8 };
        let dl: u8 = if lo < 10 { (48 + lo) as u8 } else { (87 + lo) as u8 };
        assert(dh == hex_digit((digits@[j as int] as int) / 16));
        assert(dl == hex_digit((digits@[j as int] as int) % 16));
        out.push(dh);
        out.push(dl);
        assert(digits@.take(j + 1).drop_last() =~= digits@.take(j as int));
        j = j + 1;
        assert(out@ =~= head + spec_hex_ascii(digits@.take(j as int)));
    }
    assert(digits@.take(digits@.len() as int) =~= digits@);
    out.push(13u8);
    out.push(10u8);
    out
}

/// The host bus's answer to the authentication: a line starting with `OK`
/// accepts it; any other line is refused with the line, trimmed.
pub fn check_auth_reply(response: &str) -> (r: Result<(), Error>)
    ensures
        has_prefix(response@, "OK"@) ==> r is Ok,
        !has_prefix(response@, "OK"@) ==> (r matches Err(Error::AuthRejected(s)) && s@ == spec_trim(response@, ws())),
{
    let cs = chars_of(response);
    let ok = chars_of("OK");
    if crate::text::chars_have_prefix(&cs, &ok) {
        Ok(())
    } else {
        Err(Error::AuthRejected(string_of(trim_chars(&cs).as_slice())))
    }
}

/// The host bus's answer to the router's `Hello()`: the type of the first
/// message it sends, or `None` if it closed the connection. Only a method
/// return is accepted.
pub fn check_hello_reply(reply: Option<MessageType>) -> (r: Result<(), Error>)
    ensures
        reply == Some(MessageType::MethodReturn) <==> r is Ok,
        reply == Some(MessageType::Error) ==> r == Err::<(), Error>(Error::HelloFailed),
        reply is None ==> r == Err::<(), Error>(Error::HelloDisconnected),
        (reply matches Some(t) && t != MessageType::MethodReturn && t != MessageType::Error) ==> r
            == Err::<(), Error>(Error::UnexpectedHelloReply(reply.unwrap())),
{
    match reply {
        Some(MessageType::MethodReturn) => Ok(()),
        Some(MessageType::Error) => Err(Error::HelloFailed),
        Some(t) => Err(Error::UnexpectedHelloReply(t)),
        None => Err(Error::HelloDisconnected),
    }
}

/// The message the host bus sends after the `Hello()` reply (expected to
/// be the NameAcquired signal, consumed so that it never reaches the
/// client): only a closed connection is an error; another message type is
/// tolerated.
pub fn check_name_acquired(next: Option<MessageType>) -> (r: Result<(), Error>)
    ensures
        next is None <==> r is Err,
        r is Err ==> r == Err::<(), Error>(Error::HelloDisconnected),
{
    match next {
        Some(_) => Ok(()),
        None => Err(Error::HelloDisconnected),
    }
}

} // verus!
