//! D-Bus message parsing.
//!
//! Wire layout of a message:
//! - byte 0: endian marker (`l` = little, `B` = big)
//! - byte 1: message type (1=method_call, 2=method_return, 3=error, 4=signal)
//! - byte 2: flags
//! - byte 3: protocol version (always 1)
//! - bytes 4-7: body length (u32)
//! - bytes 8-11: serial (u32)
//! - bytes 12-15: length of the header fields array, then the array
//! - padding to an 8-byte boundary, then the body

use vstd::prelude::*;
use vstd::utf8::*;
use crate::codec::{decode_header_fields, dbus_header_fields_decoding, header_values_view, HeaderValue, HeaderValueView};
use crate::error::Error;
use crate::text::{opt_str_is, opt_string_copy, opt_view, spec_opt_is, utf8_string};
pub use crate::wire::Endian;
use crate::wire::{
    append_bytes, read_u32_at, spec_pad8, spec_u32_at, spec_u32_bytes,
};

verus! {

/// Maximum D-Bus message size (128 MB per spec, but we use 64 MB limit).
pub const MAX_MESSAGE_SIZE: u32 = 64 * 1024 * 1024;

/// Fixed header size (before variable header fields array).
pub const FIXED_HEADER_SIZE: usize = 12;

/// Minimum header size (fixed header + 4 bytes for array length).
pub const MIN_HEADER_SIZE: usize = 16;

/// D-Bus message types.
#[derive(Debug, Clone, Copy, PartialEq, Eq, Structural)]
pub enum MessageType {
    Invalid,
    MethodCall,
    MethodReturn,
    Error,
    Signal,
}

/// The message type coded by a type byte; unknown codes are `Invalid`.
pub open spec fn spec_message_type(v: u8) -> MessageType {
    if v == 1 {
        MessageType::MethodCall
    } else if v == 2 {
        MessageType::MethodReturn
    } else if v == 3 {
        MessageType::Error
    } else if v == 4 {
        MessageType::Signal
    } else {
        MessageType::Invalid
    }
}

impl From<u8> for MessageType {
    fn from(v: u8) -> (r: Self) {
        if v == 1 {
            MessageType::MethodCall
        } else if v == 2 {
            MessageType::MethodReturn
        } else if v == 3 {
            MessageType::Error
        } else if v == 4 {
            MessageType::Signal
        } else {
            MessageType::Invalid
        }
    }
}

impl vstd::std_specs::convert::FromSpecImpl<u8> for MessageType {
    open spec fn obeys_from_spec() -> bool {
        true
    }

    open spec fn from_spec(v: u8) -> MessageType {
        spec_message_type(v)
    }
}

/// Header fields the router reads, as mathematical values.
pub struct HeaderFieldsView {
    pub destination: Option<Seq<char>>,
    pub reply_serial: Option<u32>,
    pub sender: Option<Seq<char>>,
    pub interface: Option<Seq<char>>,
    pub member: Option<Seq<char>>,
    pub path: Option<Seq<char>>,
    pub signature: Option<Seq<char>>,
    pub unix_fds: Option<u32>,
}

/// No header field present.
pub open spec fn no_header_fields() -> HeaderFieldsView {
    HeaderFieldsView {
        destination: None,
        reply_serial: None,
        sender: None,
        interface: None,
        member: None,
        path: None,
        signature: None,
        unix_fds: None,
    }
}

/// The string held by a value of D-Bus type `s`, if it is one.
pub open spec fn str_value(v: HeaderValueView) -> Option<Seq<char>> {
    match v {
        HeaderValueView::Str(s) => Some(s),
        _ => None,
    }
}

/// The number held by a value of D-Bus type `u`, if it is one.
pub open spec fn u32_value(v: HeaderValueView) -> Option<u32> {
    match v {
        HeaderValueView::U32(n) => Some(n),
        _ => None,
    }
}

/// One header field applied to what the earlier fields gave. PATH and
/// SIGNATURE are taken only when they hold their own type; the string and
/// `u32` fields are replaced by the field's value, or cleared when it has
/// another type. Unknown codes are skipped.
pub open spec fn apply_header_field(acc: HeaderFieldsView, code: u8, v: HeaderValueView) -> HeaderFieldsView {
    if code == 1 {
        match v {
            HeaderValueView::ObjectPath(p) => HeaderFieldsView { path: Some(p), ..acc },
            _ => acc,
        }
    } else if code == 2 {
        HeaderFieldsView { interface: str_value(v), ..acc }
    } else if code == 3 {
        HeaderFieldsView { member: str_value(v), ..acc }
    } else if code == 5 {
        HeaderFieldsView { reply_serial: u32_value(v), ..acc }
    } else if code == 6 {
        HeaderFieldsView { destination: str_value(v), ..acc }
    } else if code == 7 {
        HeaderFieldsView { sender: str_value(v), ..acc }
    } else if code == 9 {
        HeaderFieldsView { unix_fds: u32_value(v), ..acc }
    } else if code == 8 {
        match v {
            HeaderValueView::Signature(s) => HeaderFieldsView { signature: Some(s), ..acc },
            _ => acc,
        }
    } else {
        acc
    }
}

/// All header fields applied in order; a later field overrides an earlier one.
pub open spec fn fold_header_fields(vals: Seq<(u8, HeaderValueView)>) -> HeaderFieldsView
    decreases vals.len(),
{
    if vals.len() == 0 {
        no_header_fields()
    } else {
        let last = vals.last();
        apply_header_field(fold_header_fields(vals.drop_last()), last.0, last.1)
    }
}

/// The header fields found in the contents `buf` of the header fields array:
/// the array is decoded with its length prepended, at stream position 12;
/// when decoding fails no field is found.
pub open spec fn spec_parse_header_fields(buf: Seq<u8>, endian: Endian) -> HeaderFieldsView {
    let full = spec_u32_bytes(endian, buf.len() as u32) + buf;
    match dbus_header_fields_decoding(full, endian, 12) {
        Some(vals) => fold_header_fields(vals),
        None => no_header_fields(),
    }
}

/// Header fields read from the header fields array.
#[derive(Debug, Clone, Default)]
pub struct ParsedHeaderFields {
    pub destination: Option<String>,
    pub reply_serial: Option<u32>,
    pub sender: Option<String>,
    pub interface: Option<String>,
    pub member: Option<String>,
    pub path: Option<String>,
    pub signature: Option<String>,
    pub unix_fds: Option<u32>,
}

impl ParsedHeaderFields {
    pub open spec fn view(&self) -> HeaderFieldsView {
        HeaderFieldsView {
            destination: opt_view(self.destination),
            reply_serial: self.reply_serial,
            sender: opt_view(self.sender),
            interface: opt_view(self.interface),
            member: opt_view(self.member),
            path: opt_view(self.path),
            signature: opt_view(self.signature),
            unix_fds: self.unix_fds,
        }
    }

    fn empty() -> (r: Self)
        ensures
            r@ == no_header_fields(),
    {
        ParsedHeaderFields {
            destination: None,
            reply_serial: None,
            sender: None,
            interface: None,
            member: None,
            path: None,
            signature: None,
            unix_fds: None,
        }
    }

    fn apply(&mut self, code: u8, value: HeaderValue)
        ensures
            final(self)@ == apply_header_field(old(self)@, code, value.view()),
    {
        if code == 1 {
            if let HeaderValue::ObjectPath(p) = value {
                self.path = Some(p);
            }
        } else if code == 2 {
            self.interface = string_of_value(value);
        } else if code == 3 {
            self.member = string_of_value(value);
        } else if code == 5 {
            self.reply_serial = u32_of_value(&value);
        } else if code == 6 {
            self.destination = string_of_value(value);
        } else if code == 7 {
            self.sender = string_of_value(value);
        } else if code == 9 {
            self.unix_fds = u32_of_value(&value);
        } else if code == 8 {
            if let HeaderValue::Signature(s) = value {
                self.signature = Some(s);
            }
        }
    }
}

fn string_of_value(v: HeaderValue) -> (r: Option<String>)
    ensures
        opt_view(r) == str_value(v.view()),
{
    match v {
        HeaderValue::Str(s) => Some(s),
        _ => None,
    }
}

fn u32_of_value(v: &HeaderValue) -> (r: Option<u32>)
    ensures
        r == u32_value(v.view()),
{
    match v {
        HeaderValue::U32(n) => Some(*n),
        _ => None,
    }
}

/// Parse the header fields array (`buf` holds its contents, without the
/// length prefix) and pick out the fields the router uses.
///
/// Header fields that `zvariant` cannot decode leave every field absent;
/// this never fails.
pub fn parse_header_fields(buf: &[u8], endian: Endian) -> (r: Result<ParsedHeaderFields, Error>)
    ensures
        r matches Ok(f) && f@ == spec_parse_header_fields(buf@, endian),
{
    let array_len = buf.len() as u32;
    let mut full_buf = endian.u32_bytes(array_len);
    append_bytes(&mut full_buf, buf);
    let fields = match decode_header_fields(full_buf.as_slice(), endian, 12) {
        Some(fields) => fields,
        None => return Ok(ParsedHeaderFields::empty()),
    };
    let ghost vals = header_values_view(fields@);
    let mut result = ParsedHeaderFields::empty();
    let mut i: usize = 0;
    while i < fields.len()
        invariant
            i <= fields@.len(),
            vals == header_values_view(fields@),
            result@ == fold_header_fields(vals.subrange(0, i as int)),
        decreases fields.len() - i,
    {
        let code = fields[i].0;
        let value = fields[i].1.duplicate();
        assert(vals.subrange(0, i + 1).drop_last() =~= vals.subrange(0, i as int));
        result.apply(code, value);
        i = i + 1;
    }
    assert(vals.subrange(0, fields@.len() as int) =~= vals);
    Ok(result)
}

/// Parsed D-Bus message header.
#[derive(Debug, Clone)]
pub struct MessageHeader {
    pub endian: Endian,
    pub msg_type: MessageType,
    pub flags: u8,
    pub serial: u32,
    pub body_len: u32,
    pub destination: Option<String>,
    pub reply_serial: Option<u32>,
    pub sender: Option<String>,
    pub interface: Option<String>,
    pub member: Option<String>,
    pub path: Option<String>,
    pub signature: Option<String>,
    /// Number of unix fds the message declares (header field 9).
    pub unix_fds: Option<u32>,
}

impl MessageHeader {
    /// The header fields of this header, as mathematical values.
    pub open spec fn fields(&self) -> HeaderFieldsView {
        HeaderFieldsView {
            destination: opt_view(self.destination),
            reply_serial: self.reply_serial,
            sender: opt_view(self.sender),
            interface: opt_view(self.interface),
            member: opt_view(self.member),
            path: opt_view(self.path),
            signature: opt_view(self.signature),
            unix_fds: self.unix_fds,
        }
    }

    /// A copy of this header.
    pub fn duplicate(&self) -> (r: MessageHeader)
        ensures
            r == *self,
    {
        MessageHeader {
            endian: self.endian,
            msg_type: self.msg_type,
            flags: self.flags,
            serial: self.serial,
            body_len: self.body_len,
            destination: opt_string_copy(&self.destination),
            reply_serial: self.reply_serial,
            sender: opt_string_copy(&self.sender),
            interface: opt_string_copy(&self.interface),
            member: opt_string_copy(&self.member),
            path: opt_string_copy(&self.path),
            signature: opt_string_copy(&self.signature),
            unix_fds: self.unix_fds,
        }
    }
}

/// A complete D-Bus message (header + body as raw bytes). The unix file
/// descriptors that travel with a message are kept beside it by the caller.
#[derive(Debug, Clone)]
pub struct Message {
    pub header: MessageHeader,
    /// Raw message bytes including header and body
    pub raw: Vec<u8>,
}

/// Offset just past the header fields array of `raw`.
pub open spec fn spec_header_end(endian: Endian, raw: Seq<u8>) -> int {
    16 + spec_u32_at(endian, raw, 12)
}

/// Offset where the body of `raw` starts: the end of the header fields
/// array, aligned to 8 bytes.
pub open spec fn spec_body_start(endian: Endian, raw: Seq<u8>) -> int {
    spec_header_end(endian, raw) + spec_pad8(spec_header_end(endian, raw))
}

/// The bytes of the first body argument of `raw` read as a D-Bus STRING
/// (`u32` length, then the bytes), if they lie within `raw`.
pub open spec fn spec_body_string_bytes(endian: Endian, raw: Seq<u8>) -> Option<Seq<u8>> {
    let bs = spec_body_start(endian, raw);
    if bs + 4 > raw.len() {
        None
    } else {
        let n = spec_u32_at(endian, raw, bs);
        if bs + 4 + n > raw.len() {
            None
        } else {
            Some(raw.subrange(bs + 4, bs + 4 + n))
        }
    }
}

/// The first body argument of `raw` as a string: present when it lies
/// within `raw` and is valid UTF-8.
pub open spec fn spec_body_string(endian: Endian, raw: Seq<u8>) -> Option<Seq<char>> {
    match spec_body_string_bytes(endian, raw) {
        Some(b) => if valid_utf8(b) {
            Some(decode_utf8(b))
        } else {
            None
        },
        None => None,
    }
}

/// A call of `RequestName` on the bus daemon.
pub open spec fn spec_is_request_name(h: MessageHeader) -> bool {
    &&& spec_opt_is(h.destination, "org.freedesktop.DBus"@)
    &&& spec_opt_is(h.interface, "org.freedesktop.DBus"@)
    &&& spec_opt_is(h.member, "RequestName"@)
}

/// `raw` is long enough to hold the fixed header, and its body start fits
/// in a `usize`.
pub open spec fn has_body_start(endian: Endian, raw: Seq<u8>) -> bool {
    raw.len() >= 16 && spec_body_start(endian, raw) <= usize::MAX
}

/// Offset where the body starts in `raw`.
pub fn get_body_start(raw: &[u8], endian: Endian) -> (r: usize)
    requires
        has_body_start(endian, raw@),
    ensures
        r == spec_body_start(endian, raw@),
{
    let array_len = read_u32_at(endian, raw, FIXED_HEADER_SIZE) as usize;
    let header_end = MIN_HEADER_SIZE + array_len;
    let padding = (8 - (header_end % 8)) % 8;
    header_end + padding
}

/// Whether `raw` is long enough to hold the fixed header and its body
/// start fits in a `usize`.
pub fn body_start_fits(raw: &[u8], endian: Endian) -> (r: bool)
    ensures
        r == has_body_start(endian, raw@),
{
    if raw.len() < MIN_HEADER_SIZE {
        return false;
    }
    let array_len = read_u32_at(endian, raw, FIXED_HEADER_SIZE) as u64;
    let header_end: u64 = 16 + array_len;
    let padding: u64 = (8 - (header_end % 8)) % 8;
    header_end + padding <= usize::MAX as u64
}

impl Message {
    /// A copy of this message.
    pub fn duplicate(&self) -> (r: Message)
        ensures
            r.header == self.header,
            r.raw@ == self.raw@,
    {
        let mut raw: Vec<u8> = Vec::new();
        append_bytes(&mut raw, self.raw.as_slice());
        assert(raw@ =~= self.raw@);
        Message { header: self.header.duplicate(), raw }
    }

    /// Check if this message is a RequestName call to the D-Bus daemon.
    pub fn is_request_name(&self) -> (r: bool)
        ensures
            r == spec_is_request_name(self.header),
    {
        opt_str_is(&self.header.destination, "org.freedesktop.DBus")
            && opt_str_is(&self.header.interface, "org.freedesktop.DBus")
            && opt_str_is(&self.header.member, "RequestName")
    }

    /// Get the byte offset where the message body starts.
    ///
    /// The body starts after the header fields array, aligned to an 8-byte boundary.
    pub fn body_start(&self) -> (r: usize)
        requires
            has_body_start(self.header.endian, self.raw@),
        ensures
            r == spec_body_start(self.header.endian, self.raw@),
    {
        get_body_start(self.raw.as_slice(), self.header.endian)
    }

    /// Extract a simple string from the message body.
    /// This works for methods where the first argument is a string (AddMatch, etc.)
    pub fn extract_string_from_body(&self) -> (r: Option<String>)
        requires
            has_body_start(self.header.endian, self.raw@),
        ensures
            opt_view(r) == spec_body_string(self.header.endian, self.raw@),
    {
        self.extract_name_from_body()
    }

    /// Extract the service name from RequestName body.
    /// The body format is: STRING (name) + UINT32 (flags)
    pub fn extract_name_from_body(&self) -> (r: Option<String>)
        requires
            has_body_start(self.header.endian, self.raw@),
        ensures
            opt_view(r) == spec_body_string(self.header.endian, self.raw@),
    {
        let body_start = self.body_start();
        let len = self.raw.len();
        if body_start > len || len - body_start < 4 {
            return None;
        }
        let str_len = read_u32_at(self.header.endian, self.raw.as_slice(), body_start) as usize;
        let str_start = body_start + 4;
        if str_len > len - str_start {
            return None;
        }
        utf8_string(&self.raw.as_slice()[str_start..str_start + str_len])
    }
}

/// The fixed 16-byte prologue every D-Bus message starts with: the 12-byte
/// fixed header plus the length of the header-fields array.
#[derive(Debug, Clone, Copy)]
pub struct Prologue {
    pub endian: Endian,
    pub msg_type: MessageType,
    pub flags: u8,
    pub serial: u32,
    pub body_len: u32,
    pub array_len: usize,
}

/// The outcome of parsing a prologue from its 16 bytes.
pub open spec fn spec_parse_prologue(head: Seq<u8>) -> Result<Prologue, Error> {
    if head[0] != 108u8 && head[0] != 66u8 {
        Err(Error::InvalidEndian(head[0]))
    } else {
        let endian = if head[0] == 108u8 { Endian::Little } else { Endian::Big };
        if head[3] != 1 {
            Err(Error::UnsupportedVersion(head[3]))
        } else if spec_u32_at(endian, head, 4) > MAX_MESSAGE_SIZE {
            Err(Error::BodyTooLarge(spec_u32_at(endian, head, 4)))
        } else if spec_u32_at(endian, head, 12) > MAX_MESSAGE_SIZE {
            Err(Error::FieldsTooLarge(spec_u32_at(endian, head, 12)))
        } else {
            Ok(Prologue {
                endian,
                msg_type: spec_message_type(head[1]),
                flags: head[2],
                serial: spec_u32_at(endian, head, 8),
                body_len: spec_u32_at(endian, head, 4),
                array_len: spec_u32_at(endian, head, 12) as usize,
            })
        }
    }
}

impl Prologue {
    /// Both lengths are within the message size limit.
    pub open spec fn wf(&self) -> bool {
        self.body_len <= MAX_MESSAGE_SIZE && self.array_len <= MAX_MESSAGE_SIZE
    }

    pub open spec fn spec_header_end(&self) -> int {
        16 + self.array_len
    }

    pub open spec fn spec_total_len(&self) -> int {
        self.spec_header_end() + spec_pad8(self.spec_header_end()) + self.body_len
    }

    /// Parse the prologue from the first 16 bytes of `head`.
    pub fn parse(head: &[u8]) -> (r: Result<Prologue, Error>)
        requires
            head@.len() >= 16,
        ensures
            r == spec_parse_prologue(head@),
            r matches Ok(p) ==> p.wf(),
    {
        let endian = if head[0] == 108u8 {
            Endian::Little
        } else if head[0] == 66u8 {
            Endian::Big
        } else {
            return Err(Error::InvalidEndian(head[0]));
        };
        let protocol_version = head[3];
        if protocol_version != 1 {
            return Err(Error::UnsupportedVersion(protocol_version));
        }
        let body_len = read_u32_at(endian, head, 4);
        if body_len > MAX_MESSAGE_SIZE {
            return Err(Error::BodyTooLarge(body_len));
        }
        let array_len = read_u32_at(endian, head, 12);
        if array_len > MAX_MESSAGE_SIZE {
            return Err(Error::FieldsTooLarge(array_len));
        }
        Ok(Prologue {
            endian,
            msg_type: MessageType::from(head[1]),
            flags: head[2],
            serial: read_u32_at(endian, head, 8),
            body_len,
            array_len: array_len as usize,
        })
    }

    /// Offset just past the header-fields array.
    pub fn header_end(&self) -> (r: usize)
        requires
            self.wf(),
        ensures
            r == self.spec_header_end(),
    {
        MIN_HEADER_SIZE + self.array_len
    }

    /// Padding that aligns the body to an 8-byte boundary.
    pub fn padding(&self) -> (r: usize)
        requires
            self.wf(),
        ensures
            r == spec_pad8(self.spec_header_end()),
            r < 8,
            (self.spec_header_end() + r) % 8 == 0,
    {
        (8 - (self.header_end() % 8)) % 8
    }

    /// Total wire size of the message.
    pub fn total_len(&self) -> (r: usize)
        requires
            self.wf(),
        ensures
            r == self.spec_total_len(),
    {
        self.header_end() + self.padding() + self.body_len as usize
    }

    /// The message header made of this prologue and the header fields.
    pub fn into_header(self, fields: ParsedHeaderFields) -> (r: MessageHeader)
        ensures
            r.endian == self.endian,
            r.msg_type == self.msg_type,
            r.flags == self.flags,
            r.serial == self.serial,
            r.body_len == self.body_len,
            r.fields() == fields@,
    {
        MessageHeader {
            endian: self.endian,
            msg_type: self.msg_type,
            flags: self.flags,
            serial: self.serial,
            body_len: self.body_len,
            destination: fields.destination,
            reply_serial: fields.reply_serial,
            sender: fields.sender,
            interface: fields.interface,
            member: fields.member,
            path: fields.path,
            signature: fields.signature,
            unix_fds: fields.unix_fds,
        }
    }
}

/// The message whose complete wire bytes are `raw`, whose first 16 bytes
/// parsed as `prologue`: the header is the prologue's fixed part with the
/// header fields parsed from the header fields array.
pub fn message_from_wire(prologue: Prologue, raw: Vec<u8>) -> (r: Message)
    requires
        raw@.len() >= 16,
        spec_parse_prologue(raw@) == Ok::<Prologue, Error>(prologue),
        raw@.len() == prologue.spec_total_len(),
    ensures
        r.raw@ == raw@,
        r.header.endian == prologue.endian,
        r.header.msg_type == prologue.msg_type,
        r.header.flags == prologue.flags,
        r.header.serial == prologue.serial,
        r.header.body_len == prologue.body_len,
        r.header.fields() == spec_parse_header_fields(
            raw@.subrange(16, prologue.spec_header_end()),
            prologue.endian,
        ),
        has_body_start(r.header.endian, r.raw@),
        spec_body_start(r.header.endian, r.raw@) + prologue.body_len == raw@.len(),
{
    let header_end = prologue.header_end();
    let fields = match parse_header_fields(&raw.as_slice()[MIN_HEADER_SIZE..header_end], prologue.endian) {
        Ok(f) => f,
        Err(_) => ParsedHeaderFields::empty(),
    };
    Message { header: prologue.into_header(fields), raw }
}

} // verus!
