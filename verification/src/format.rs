//! D-Bus message formatting in the style of `dbus-monitor`.

use vstd::prelude::*;
use crate::auth::{decimal_chars, spec_decimal};
use crate::bus::Bus;
use crate::codec::{
    decode_string, decode_string_array, decode_string_pair, decode_string_triple, decode_string_u32, decode_u32,
    dbus_string_array_decoding, dbus_string_decoding, dbus_string_pair_decoding, dbus_string_triple_decoding,
    dbus_string_u32_decoding, dbus_u32_decoding, strings_view,
};
use crate::message::{Message, MessageHeader, MessageType};
use crate::text::{chars_eq, chars_of, opt_view, string_of};
use crate::wire::Endian;

verus! {

/// Append the characters of `s` to `out`.
fn push_str(out: &mut Vec<char>, s: &str)
    ensures
        final(out)@ == old(out)@ + s@,
{
    let cs = chars_of(s);
    push_chars(out, &cs);
}

/// Append `cs` to `out`.
fn push_chars(out: &mut Vec<char>, cs: &Vec<char>)
    ensures
        final(out)@ == old(out)@ + cs@,
{
    let mut i: usize = 0;
    while i < cs.len()
        invariant
            i <= cs@.len(),
            out@ == old(out)@ + cs@.take(i as int),
        decreases cs.len() - i,
    {
        out.push(cs[i]);
        i = i + 1;
        assert(out@ =~= old(out)@ + cs@.take(i as int));
    }
    assert(cs@.take(cs@.len() as int) =~= cs@);
}

/// The dbus-monitor name of a message type.
pub open spec fn spec_type_name(t: MessageType) -> Seq<char> {
    match t {
        MessageType::MethodCall => "method_call"@,
        MessageType::MethodReturn => "method_return"@,
        MessageType::Error => "error"@,
        MessageType::Signal => "signal"@,
        MessageType::Invalid => "invalid"@,
    }
}

/// The present value, or the default.
pub open spec fn or_default(o: Option<Seq<char>>, d: Seq<char>) -> Seq<char> {
    match o {
        Some(s) => s,
        None => d,
    }
}

/// `key` followed by the value when there is one, else nothing.
pub open spec fn opt_field(key: Seq<char>, o: Option<Seq<char>>) -> Seq<char> {
    match o {
        Some(s) => key + s,
        None => Seq::empty(),
    }
}

/// `TYPE sender=S -> dest=D`, a missing sender shown as `(unknown)`, a
/// missing destination as `(broadcast)`.
pub open spec fn header_addresses(h: MessageHeader) -> Seq<char> {
    spec_type_name(h.msg_type) + " sender="@ + or_default(opt_view(h.sender), "(unknown)"@) + " -> dest="@
        + or_default(opt_view(h.destination), "(broadcast)"@)
}

/// ` [H]` or ` [S]` for the bus given, nothing without one.
pub open spec fn bus_marker(bus: Option<Bus>) -> Seq<char> {
    match bus {
        Some(Bus::Host) => " [H]"@,
        Some(Bus::Sandbox) => " [S]"@,
        None => Seq::<char>::empty(),
    }
}

/// ` (DIR) serial=N`, then ` reply_to=R` when the message answers a call.
pub open spec fn header_serials(h: MessageHeader, direction: Seq<char>) -> Seq<char> {
    " ("@ + direction + ")"@ + " serial="@ + spec_decimal(h.serial as nat) + match h.reply_serial {
        Some(r) => " reply_to="@ + spec_decimal(r as nat),
        None => Seq::<char>::empty(),
    }
}

/// ` path=P`, ` iface=I` and ` member=M`, each where present.
pub open spec fn header_location(h: MessageHeader) -> Seq<char> {
    opt_field(" path="@, opt_view(h.path)) + opt_field(" iface="@, opt_view(h.interface)) + opt_field(
        " member="@,
        opt_view(h.member),
    )
}

/// The header line of a message in dbus-monitor style:
/// `TYPE sender=S -> dest=D [B] (DIR) serial=N` followed, where present, by
/// ` reply_to=R`, ` path=P`, ` iface=I` and ` member=M`.
pub open spec fn spec_format_header(h: MessageHeader, direction: Seq<char>, bus: Option<Bus>) -> Seq<char> {
    header_addresses(h) + bus_marker(bus) + header_serials(h, direction) + header_location(h)
}

fn push_opt_field(out: &mut Vec<char>, key: &str, o: &Option<String>)
    ensures
        final(out)@ == old(out)@ + opt_field(key@, opt_view(*o)),
{
    if let Some(s) = o {
        push_str(out, key);
        push_str(out, s.as_str());
        assert(final(out)@ =~= old(out)@ + opt_field(key@, opt_view(*o)));
    } else {
        assert(old(out)@ + Seq::<char>::empty() =~= old(out)@);
    }
}

fn addresses_chars(h: &MessageHeader) -> (r: Vec<char>)
    ensures
        r@ == header_addresses(*h),
{
    let mut out: Vec<char> = Vec::new();
    let type_str = match h.msg_type {
        MessageType::MethodCall => "method_call",
        MessageType::MethodReturn => "method_return",
        MessageType::Error => "error",
        MessageType::Signal => "signal",
        MessageType::Invalid => "invalid",
    };
    push_str(&mut out, type_str);
    push_str(&mut out, " sender=");
    match &h.sender {
        Some(s) => push_str(&mut out, s.as_str()),
        None => push_str(&mut out, "(unknown)"),
    }
    push_str(&mut out, " -> dest=");
    match &h.destination {
        Some(d) => push_str(&mut out, d.as_str()),
        None => push_str(&mut out, "(broadcast)"),
    }
    assert(out@ =~= header_addresses(*h));
    out
}

fn bus_marker_chars(bus: Option<Bus>) -> (r: Vec<char>)
    ensures
        r@ == bus_marker(bus),
{
    match bus {
        Some(Bus::Host) => chars_of(" [H]"),
        Some(Bus::Sandbox) => chars_of(" [S]"),
        None => Vec::new(),
    }
}

fn serials_chars(h: &MessageHeader, direction: &str) -> (r: Vec<char>)
    ensures
        r@ == header_serials(*h, direction@),
{
    let mut out: Vec<char> = Vec::new();
    push_str(&mut out, " (");
    push_str(&mut out, direction);
    push_str(&mut out, ")");
    push_str(&mut out, " serial=");
    push_chars(&mut out, &decimal_chars(h.serial));
    match h.reply_serial {
        Some(r) => {
            push_str(&mut out, " reply_to=");
            push_chars(&mut out, &decimal_chars(r));
        },
        None => {},
    }
    assert(out@ =~= header_serials(*h, direction@));
    out
}

fn location_chars(h: &MessageHeader) -> (r: Vec<char>)
    ensures
        r@ == header_location(*h),
{
    let mut out: Vec<char> = Vec::new();
    push_opt_field(&mut out, " path=", &h.path);
    push_opt_field(&mut out, " iface=", &h.interface);
    push_opt_field(&mut out, " member=", &h.member);
    assert(out@ =~= header_location(*h));
    out
}

/// Format the header line of a message in dbus-monitor style, e.g.
/// `method_call sender=:1.45 -> dest=org.fcitx.Fcitx5 [H] (->) serial=42 path=/org/fcitx/Fcitx5 member=Activate`.
pub fn format_message_header(msg: &Message, direction: &str, bus: Option<Bus>) -> (r: String)
    ensures
        r@ == spec_format_header(msg.header, direction@, bus),
{
    let mut out = addresses_chars(&msg.header);
    push_chars(&mut out, &bus_marker_chars(bus));
    push_chars(&mut out, &serials_chars(&msg.header, direction));
    push_chars(&mut out, &location_chars(&msg.header));
    string_of(out.as_slice())
}

/// The short name of a message type in one-line summaries.
pub open spec fn spec_summary_type(t: MessageType) -> Seq<char> {
    match t {
        MessageType::MethodCall => "CALL"@,
        MessageType::MethodReturn => "REPLY"@,
        MessageType::Error => "ERROR"@,
        MessageType::Signal => "SIGNAL"@,
        MessageType::Invalid => "INVALID"@,
    }
}

/// `TYPE IFACE.MEMBER [SENDER->DEST] serial=N`, a missing field shown as `-`.
pub open spec fn spec_format_message_summary(h: MessageHeader) -> Seq<char> {
    spec_summary_type(h.msg_type) + " "@ + or_default(opt_view(h.interface), "-"@) + "."@ + or_default(
        opt_view(h.member),
        "-"@,
    ) + " ["@ + or_default(opt_view(h.sender), "-"@) + "->"@ + or_default(opt_view(h.destination), "-"@)
        + "] serial="@ + spec_decimal(h.serial as nat)
}

fn push_or_dash(out: &mut Vec<char>, o: &Option<String>)
    ensures
        final(out)@ == old(out)@ + or_default(opt_view(*o), "-"@),
{
    match o {
        Some(s) => push_str(out, s.as_str()),
        None => push_str(out, "-"),
    }
}

/// Format a one-line summary of the message for logging.
pub fn format_message_summary(msg: &Message) -> (r: String)
    ensures
        r@ == spec_format_message_summary(msg.header),
{
    let h = &msg.header;
    let type_str = match h.msg_type {
        MessageType::MethodCall => "CALL",
        MessageType::MethodReturn => "REPLY",
        MessageType::Error => "ERROR",
        MessageType::Signal => "SIGNAL",
        MessageType::Invalid => "INVALID",
    };
    let mut out: Vec<char> = Vec::new();
    push_str(&mut out, type_str);
    push_str(&mut out, " ");
    push_or_dash(&mut out, &h.interface);
    push_str(&mut out, ".");
    push_or_dash(&mut out, &h.member);
    push_str(&mut out, " [");
    push_or_dash(&mut out, &h.sender);
    push_str(&mut out, "->");
    push_or_dash(&mut out, &h.destination);
    push_str(&mut out, "] serial=");
    push_chars(&mut out, &decimal_chars(h.serial));
    assert(out@ =~= spec_format_message_summary(*h));
    string_of(out.as_slice())
}

/// The signature of the body to be formatted after the header line: the
/// message has a non-empty body and a non-empty signature.
pub fn body_signature(msg: &Message) -> (r: Option<String>)
    ensures
        match r {
            Some(s) => msg.header.body_len > 0 && opt_view(msg.header.signature) == Some(s@) && s@.len() > 0,
            None => msg.header.body_len == 0 || !(msg.header.signature matches Some(s) && s@.len() > 0),
        },
{
    if msg.header.body_len > 0 {
        if let Some(sig) = &msg.header.signature {
            if !sig.as_str().is_empty() {
                return Some(sig.clone());
            }
        }
    }
    None
}

/// `   string "V"`
pub open spec fn string_line(v: Seq<char>) -> Seq<char> {
    "   string \""@ + v + "\""@
}

/// `   uint32 N`
pub open spec fn uint32_line(n: u32) -> Seq<char> {
    "   uint32 "@ + spec_decimal(n as nat)
}

/// The elements of a string array, each as `,`(except the first) then a
/// new line and `      string "V"`.
pub open spec fn array_items(names: Seq<Seq<char>>) -> Seq<char>
    decreases names.len(),
{
    if names.len() == 0 {
        Seq::empty()
    } else {
        array_items(names.drop_last()) + (if names.len() > 1 { ","@ } else { Seq::<char>::empty() }) + "\n"@
            + "      string \""@ + names.last() + "\""@
    }
}

/// The body formatted for the common signatures: a string, a `u32`, a
/// string and a `u32` (for `su` and `us` alike), two or three strings, an
/// array of strings. Other signatures, and bodies that do not decode, are
/// not formatted.
pub open spec fn spec_format_body_by_signature(body: Seq<u8>, signature: Seq<char>, endian: Endian) -> Option<Seq<char>> {
    if signature == "s"@ {
        match dbus_string_decoding(body, endian, 0) {
            Some(v) => Some(string_line(v)),
            None => None,
        }
    } else if signature == "u"@ {
        match dbus_u32_decoding(body, endian, 0) {
            Some(v) => Some(uint32_line(v)),
            None => None,
        }
    } else if signature == "su"@ || signature == "us"@ {
        match dbus_string_u32_decoding(body, endian, 0) {
            Some((a, b)) => Some(string_line(a) + "\n"@ + uint32_line(b)),
            None => None,
        }
    } else if signature == "ss"@ {
        match dbus_string_pair_decoding(body, endian, 0) {
            Some((a, b)) => Some(string_line(a) + "\n"@ + string_line(b)),
            None => None,
        }
    } else if signature == "sss"@ {
        match dbus_string_triple_decoding(body, endian, 0) {
            Some((a, b, c)) => Some(string_line(a) + "\n"@ + string_line(b) + "\n"@ + string_line(c)),
            None => None,
        }
    } else if signature == "as"@ {
        match dbus_string_array_decoding(body, endian, 0) {
            Some(names) => if names.len() == 0 {
                Some("   array []"@)
            } else {
                Some("   array ["@ + array_items(names) + "\n   ]"@)
            },
            None => None,
        }
    } else {
        None
    }
}

fn string_line_chars(v: &str) -> (r: Vec<char>)
    ensures
        r@ == string_line(v@),
{
    let mut out: Vec<char> = Vec::new();
    push_str(&mut out, "   string \"");
    push_str(&mut out, v);
    push_str(&mut out, "\"");
    assert(out@ =~= string_line(v@));
    out
}

fn uint32_line_chars(n: u32) -> (r: Vec<char>)
    ensures
        r@ == uint32_line(n),
{
    let mut out: Vec<char> = Vec::new();
    push_str(&mut out, "   uint32 ");
    push_chars(&mut out, &decimal_chars(n));
    assert(out@ =~= uint32_line(n));
    out
}

fn sig_is(sig: &Vec<char>, lit: &str) -> (r: bool)
    ensures
        r == (sig@ == lit@),
{
    chars_eq(sig, &chars_of(lit))
}

/// Try to format body based on specific signature patterns.
pub fn format_body_by_signature(body_bytes: &[u8], signature: &str, endian: Endian) -> (r: Option<String>)
    ensures
        opt_view(r) == spec_format_body_by_signature(body_bytes@, signature@, endian),
{
    let sig = chars_of(signature);
    if sig_is(&sig, "s") {
        let v = decode_string(body_bytes, endian, 0)?;
        return Some(string_of(string_line_chars(v.as_str()).as_slice()));
    }
    if sig_is(&sig, "u") {
        let v = decode_u32(body_bytes, endian, 0)?;
        return Some(string_of(uint32_line_chars(v).as_slice()));
    }
    if sig_is(&sig, "su") || sig_is(&sig, "us") {
        let (a, b) = decode_string_u32(body_bytes, endian, 0)?;
        let mut out = string_line_chars(a.as_str());
        push_str(&mut out, "\n");
        push_chars(&mut out, &uint32_line_chars(b));
        return Some(string_of(out.as_slice()));
    }
    if sig_is(&sig, "ss") {
        let (a, b) = decode_string_pair(body_bytes, endian, 0)?;
        let mut out = string_line_chars(a.as_str());
        push_str(&mut out, "\n");
        push_chars(&mut out, &string_line_chars(b.as_str()));
        return Some(string_of(out.as_slice()));
    }
    if sig_is(&sig, "sss") {
        let (a, b, c) = decode_string_triple(body_bytes, endian, 0)?;
        let mut out = string_line_chars(a.as_str());
        push_str(&mut out, "\n");
        push_chars(&mut out, &string_line_chars(b.as_str()));
        push_str(&mut out, "\n");
        push_chars(&mut out, &string_line_chars(c.as_str()));
        return Some(string_of(out.as_slice()));
    }
    if sig_is(&sig, "as") {
        let values = decode_string_array(body_bytes, endian, 0)?;
        let ghost names = strings_view(values@);
        if values.len() == 0 {
            return Some("   array []".to_owned());
        }
        let mut out: Vec<char> = Vec::new();
        push_str(&mut out, "   array [");
        let ghost head = out@;
        let mut i: usize = 0;
        assert(names.take(0) =~= Seq::<Seq<char>>::empty());
        assert(head + array_items(names.take(0)) =~= head);
        while i < values.len()
            invariant
                i <= values@.len(),
                names == strings_view(values@),
                out@ == head + array_items(names.take(i as int)),
            decreases values.len() - i,
        {
            let ghost before = out@;
            if i > 0 {
                push_str(&mut out, ",");
            }
            push_str(&mut out, "\n");
            push_str(&mut out, "      string \"");
            push_str(&mut out, values[i].as_str());
            push_str(&mut out, "\"");
            assert(names.take(i + 1).drop_last() =~= names.take(i as int));
            assert(names.take(i + 1).last() == values@[i as int]@);
            i = i + 1;
            assert(out@ =~= head + array_items(names.take(i as int)));
        }
        assert(names.take(values@.len() as int) =~= names);
        push_str(&mut out, "\n   ]");
        return Some(string_of(out.as_slice()));
    }
    None
}

} // verus!
