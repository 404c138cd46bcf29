//! Special handling for `org.freedesktop.DBus` daemon methods and signals:
//! - ListNames / ListActivatableNames: merge the results of both buses
//! - Hello / GetNameOwner / ListQueuedOwners: fake unique names in replies
//! - credential queries: real unique names in requests
//! - NameOwnerChanged: fake unique names in the signal body

use vstd::prelude::*;
use vstd::string::*;
use vstd::utf8::*;
use crate::bus::Bus;
use crate::codec::{
    decode_string_array, decode_string_triple, dbus_header_fields_encoding, dbus_string_array_decoding,
    dbus_string_array_encoding, dbus_string_triple_decoding, dbus_string_triple_encoding,
    encode_header_fields, encode_string_array, field_values_view, FieldValue, HeaderValueView, encode_string_triple, opt_str_view, string_array_fits, string_array_fits_u32, strings_view,
};
use crate::error::Error;
use crate::fake_name::{
    from_fake_name, is_unique_name, spec_from_fake_name, spec_is_unique_name, spec_to_fake_name,
    to_fake_name,
};
use crate::message::{body_start_fits, get_body_start, has_body_start, spec_body_start, spec_body_string, spec_body_string_bytes, Message};
use crate::rewrite::{
    parse_match_rule_sender, rewrite_match_rule_sender, spec_dbus_string, spec_match_rule_sender,
    spec_rewrite_match_rule_sender,
};
use crate::text::{str_eq, utf8_lossy_decoding, utf8_lossy_string};
use crate::wire::{spec_read_u32, 
    append_bytes, append_zeros, law_u32_roundtrip, read_u32_at, spec_pad8, spec_u32_at, spec_u32_bytes, Endian,
};

verus! {

broadcast use {encode_utf8_valid_utf8, encode_utf8_decode_utf8};

/// The text of some bytes as `String::from_utf8_lossy` gives it: the
/// decoded characters when the bytes are valid UTF-8.
pub open spec fn spec_lossy_text(b: Seq<u8>) -> Seq<char> {
    if valid_utf8(b) {
        decode_utf8(b)
    } else {
        utf8_lossy_decoding(b)
    }
}

/// Methods whose reply carries a unique name to be given the bus prefix.
pub open spec fn spec_needs_response_rewrite(member: Seq<char>) -> bool {
    member == "Hello"@ || member == "GetNameOwner"@ || member == "ListQueuedOwners"@
}

/// Methods whose argument is a unique name to be stripped of the bus prefix.
pub open spec fn spec_needs_request_rewrite(member: Seq<char>) -> bool {
    ||| member == "GetConnectionCredentials"@
    ||| member == "GetConnectionUnixUser"@
    ||| member == "GetConnectionUnixProcessID"@
    ||| member == "GetConnectionSELinuxSecurityContext"@
    ||| member == "GetAdtAuditSessionData"@
    ||| member == "NameHasOwner"@
}

/// Methods whose results are merged from both buses.
pub open spec fn spec_needs_merge(member: Seq<char>) -> bool {
    member == "ListNames"@ || member == "ListActivatableNames"@
}

/// Signals whose body carries unique names.
pub open spec fn spec_signal_needs_rewrite(member: Seq<char>) -> bool {
    member == "NameOwnerChanged"@
}

/// Check if a method needs response rewriting.
pub fn needs_response_rewrite(member: &str) -> (r: bool)
    ensures
        r == spec_needs_response_rewrite(member@),
{
    str_eq(member, "Hello") || str_eq(member, "GetNameOwner") || str_eq(member, "ListQueuedOwners")
}

/// Check if a method needs request rewriting.
pub fn needs_request_rewrite(member: &str) -> (r: bool)
    ensures
        r == spec_needs_request_rewrite(member@),
{
    str_eq(member, "GetConnectionCredentials") || str_eq(member, "GetConnectionUnixUser") || str_eq(
        member,
        "GetConnectionUnixProcessID",
    ) || str_eq(member, "GetConnectionSELinuxSecurityContext") || str_eq(member, "GetAdtAuditSessionData")
        || str_eq(member, "NameHasOwner")
}

/// Check if a method needs result merging.
pub fn needs_merge(member: &str) -> (r: bool)
    ensures
        r == spec_needs_merge(member@),
{
    str_eq(member, "ListNames") || str_eq(member, "ListActivatableNames")
}

/// Check if a signal needs body rewriting.
pub fn signal_needs_rewrite(member: &str) -> (r: bool)
    ensures
        r == spec_signal_needs_rewrite(member@),
{
    str_eq(member, "NameOwnerChanged")
}

/// The message `raw` with its body replaced by `body`: the fixed header with
/// the new body length, the header fields and padding unchanged, then the
/// new body.
pub open spec fn spec_rebuild_with_body(raw: Seq<u8>, endian: Endian, body: Seq<u8>) -> Seq<u8> {
    raw.subrange(0, 4) + spec_u32_bytes(endian, body.len() as u32) + raw.subrange(8, spec_body_start(endian, raw))
        + body
}

/// The message `raw` with its body replaced by one D-Bus string.
pub open spec fn spec_rebuild_with_string(raw: Seq<u8>, endian: Endian, s: Seq<u8>) -> Seq<u8> {
    spec_rebuild_with_body(raw, endian, spec_dbus_string(endian, s))
}

/// `raw` has a body start within it.
pub open spec fn body_start_within(endian: Endian, raw: Seq<u8>) -> bool {
    has_body_start(endian, raw) && spec_body_start(endian, raw) <= raw.len()
}

/// The first body argument can be read without running past the message:
/// either there is no body, or there are at least four bytes for its length.
pub open spec fn body_string_readable(endian: Endian, raw: Seq<u8>) -> bool {
    has_body_start(endian, raw) && (spec_body_start(endian, raw) >= raw.len() || spec_body_start(endian, raw) + 4
        <= raw.len())
}

/// Whether the first body argument of `raw` can be read without running
/// past the message.
pub fn is_body_string_readable(raw: &[u8], endian: Endian) -> (r: bool)
    ensures
        r == body_string_readable(endian, raw@),
{
    if !body_start_fits(raw, endian) {
        return false;
    }
    let bs = get_body_start(raw, endian);
    bs >= raw.len() || raw.len() - bs >= 4
}

/// Rebuild a message with a new body.
pub fn rebuild_message_with_body(raw: &[u8], endian: Endian, new_body: &[u8]) -> (r: Result<Vec<u8>, Error>)
    requires
        body_start_within(endian, raw@),
    ensures
        r matches Ok(v) && v@ == spec_rebuild_with_body(raw@, endian, new_body@),
{
    let body_start = get_body_start(raw, endian);
    let new_body_len = #[verifier::truncate] (new_body.len() as u32);
    let body_len_bytes = endian.u32_bytes(new_body_len);
    let mut new_raw: Vec<u8> = Vec::new();
    append_bytes(&mut new_raw, &raw[0..4]);
    append_bytes(&mut new_raw, body_len_bytes.as_slice());
    append_bytes(&mut new_raw, &raw[8..body_start]);
    append_bytes(&mut new_raw, new_body);
    Ok(new_raw)
}

/// Rebuild a message with a new string as its body.
pub fn rebuild_message_with_string(raw: &[u8], endian: Endian, _body_start: usize, new_str: &str) -> (r: Result<Vec<u8>, Error>)
    requires
        body_start_within(endian, raw@),
    ensures
        r matches Ok(v) && v@ == spec_rebuild_with_string(raw@, endian, new_str.spec_bytes()),
{
    let bytes = new_str.as_bytes();
    let new_len = #[verifier::truncate] (bytes.len() as u32);
    let mut new_body = endian.u32_bytes(new_len);
    append_bytes(&mut new_body, bytes);
    new_body.push(0u8);
    assert(new_body@ =~= spec_dbus_string(endian, new_str.spec_bytes()));
    rebuild_message_with_body(raw, endian, new_body.as_slice())
}

/// Bytes of the first body argument as a string, on the inputs where the
/// body is readable.
fn body_string_bytes(msg: &Message) -> (r: Option<(usize, Vec<u8>)>)
    requires
        body_string_readable(msg.header.endian, msg.raw@),
    ensures
        match r {
            Some((bs, b)) => spec_body_string_bytes(msg.header.endian, msg.raw@) == Some(b@)
                && bs == spec_body_start(msg.header.endian, msg.raw@) && bs < msg.raw@.len(),
            None => spec_body_string_bytes(msg.header.endian, msg.raw@) is None,
        },
{
    let body_start = get_body_start(msg.raw.as_slice(), msg.header.endian);
    let len = msg.raw.len();
    if body_start >= len {
        return None;
    }
    let str_len = read_u32_at(msg.header.endian, msg.raw.as_slice(), body_start) as usize;
    let str_start = body_start + 4;
    if str_len > len - str_start {
        return None;
    }
    let mut b: Vec<u8> = Vec::new();
    append_bytes(&mut b, &msg.raw.as_slice()[str_start..str_start + str_len]);
    Some((body_start, b))
}

/// Vector view of an optional byte vector.
pub open spec fn opt_bytes(o: Option<Vec<u8>>) -> Option<Seq<u8>> {
    match o {
        Some(v) => Some(v@),
        None => None,
    }
}

/// The match rule in the body with a fake unique sender turned into the
/// real one, as a new message; `None` when there is nothing to rewrite.
pub open spec fn spec_rewrite_match_rule_body(endian: Endian, raw: Seq<u8>) -> Option<Seq<u8>> {
    match spec_body_string_bytes(endian, raw) {
        None => None,
        Some(b) => {
            let rule = spec_lossy_text(b);
            match spec_match_rule_sender(rule) {
                Some(sender) => match spec_from_fake_name(sender) {
                    Some((real_sender, _)) => Some(
                        spec_rebuild_with_string(
                            raw,
                            endian,
                            encode_utf8(spec_rewrite_match_rule_sender(rule, sender, real_sender)),
                        ),
                    ),
                    None => None,
                },
                None => None,
            }
        },
    }
}

/// Rewrite AddMatch/RemoveMatch body to remove fake prefix from sender.
/// Returns the rewritten message bytes if sender was rewritten, or None if no rewrite needed.
pub fn rewrite_match_rule_body(msg: &Message) -> (r: Result<Option<Vec<u8>>, Error>)
    requires
        body_string_readable(msg.header.endian, msg.raw@),
    ensures
        r matches Ok(o) && opt_bytes(o) == spec_rewrite_match_rule_body(msg.header.endian, msg.raw@),
{
    let (body_start, b) = match body_string_bytes(msg) {
        Some(x) => x,
        None => return Ok(None),
    };
    let rule = utf8_lossy_string(b.as_slice());
    if let Some(sender) = parse_match_rule_sender(rule.as_str()) {
        if let Some((real_sender, _bus)) = from_fake_name(sender.as_str()) {
            let new_rule = rewrite_match_rule_sender(rule.as_str(), sender.as_str(), real_sender.as_str());
            let v = rebuild_message_with_string(msg.raw.as_slice(), msg.header.endian, body_start, new_rule.as_str())?;
            return Ok(Some(v));
        }
    }
    Ok(None)
}

/// The reply with a unique name in its body given the prefix of `source`;
/// the same bytes when the body holds no unique name.
pub open spec fn spec_rewrite_single_name_response(endian: Endian, raw: Seq<u8>, source: Bus) -> Seq<u8> {
    match spec_body_string_bytes(endian, raw) {
        None => raw,
        Some(b) => {
            let name = spec_lossy_text(b);
            if !spec_is_unique_name(name) {
                raw
            } else {
                spec_rebuild_with_string(raw, endian, encode_utf8(spec_to_fake_name(name, source)))
            }
        },
    }
}

/// Copy of the raw bytes of a message.
fn raw_copy(msg: &Message) -> (r: Vec<u8>)
    ensures
        r@ == msg.raw@,
{
    let mut v: Vec<u8> = Vec::new();
    append_bytes(&mut v, msg.raw.as_slice());
    v
}

/// Rewrite a single unique name in response body (for GetNameOwner, Hello).
pub fn rewrite_single_name_response(msg: &Message, source: Bus) -> (r: Result<Vec<u8>, Error>)
    requires
        body_string_readable(msg.header.endian, msg.raw@),
    ensures
        r matches Ok(v) && v@ == spec_rewrite_single_name_response(msg.header.endian, msg.raw@, source),
{
    let (body_start, b) = match body_string_bytes(msg) {
        Some(x) => x,
        None => return Ok(raw_copy(msg)),
    };
    let name = utf8_lossy_string(b.as_slice());
    if !is_unique_name(name.as_str()) {
        return Ok(raw_copy(msg));
    }
    let fake_name = to_fake_name(name.as_str(), source);
    rebuild_message_with_string(msg.raw.as_slice(), msg.header.endian, body_start, fake_name.as_str())
}

/// A request whose unique name argument has lost its fake prefix, and the
/// bus the prefix named; the same bytes and the sandbox bus when the
/// argument is not a fake unique name.
pub open spec fn spec_rewrite_unique_name_request(endian: Endian, raw: Seq<u8>) -> Result<(Seq<u8>, Bus), Error> {
    if spec_body_start(endian, raw) >= raw.len() {
        Err(Error::NoBody)
    } else {
        match spec_body_string_bytes(endian, raw) {
            None => Err(Error::InvalidBodyString),
            Some(b) => match spec_from_fake_name(spec_lossy_text(b)) {
                Some((real_name, bus)) => Ok((spec_rebuild_with_string(raw, endian, encode_utf8(real_name)), bus)),
                None => Ok((raw, Bus::Sandbox)),
            },
        }
    }
}

/// Rewrite unique name in request body (for GetConnectionCredentials etc.)
/// Removes the fake prefix before sending to upstream.
pub fn rewrite_unique_name_request(msg: &Message) -> (r: Result<(Vec<u8>, Bus), Error>)
    requires
        body_string_readable(msg.header.endian, msg.raw@),
    ensures
        match spec_rewrite_unique_name_request(msg.header.endian, msg.raw@) {
            Ok((b, bus)) => r matches Ok((v, rb)) && v@ == b && rb == bus,
            Err(e) => r matches Err(re) && re == e,
        },
{
    let bs = get_body_start(msg.raw.as_slice(), msg.header.endian);
    if bs >= msg.raw.len() {
        return Err(Error::NoBody);
    }
    let (body_start, b) = match body_string_bytes(msg) {
        Some(x) => x,
        None => return Err(Error::InvalidBodyString),
    };
    let name = utf8_lossy_string(b.as_slice());
    if let Some((real_name, bus)) = from_fake_name(name.as_str()) {
        let new_raw = rebuild_message_with_string(msg.raw.as_slice(), msg.header.endian, body_start, real_name.as_str())?;
        Ok((new_raw, bus))
    } else {
        Ok((raw_copy(msg), Bus::Sandbox))
    }
}

/// The names with every unique name given the prefix of `bus`.
pub open spec fn spec_fake_names(names: Seq<Seq<char>>, bus: Bus) -> Seq<Seq<char>> {
    names.map_values(|n: Seq<char>| spec_to_fake_name(n, bus))
}

/// Give every unique name of `names` the prefix of `bus`.
fn fake_all(names: &Vec<String>, bus: Bus) -> (r: Vec<String>)
    ensures
        strings_view(r@) == spec_fake_names(strings_view(names@), bus),
{
    let mut out: Vec<String> = Vec::new();
    let mut i: usize = 0;
    while i < names.len()
        invariant
            i <= names@.len(),
            strings_view(out@) == spec_fake_names(strings_view(names@.take(i as int)), bus),
        decreases names.len() - i,
    {
        let name = &names[i];
        let renamed = if is_unique_name(name.as_str()) {
            to_fake_name(name.as_str(), bus)
        } else {
            name.clone()
        };
        assert(renamed@ == spec_to_fake_name(names@[i as int]@, bus));
        let ghost old_out = out@;
        out.push(renamed);
        assert(names@.take(i + 1) =~= names@.take(i as int).push(names@[i as int]));
        assert(strings_view(names@.take(i + 1)) =~= strings_view(names@.take(i as int)).push(names@[i as int]@));
        assert(strings_view(out@) =~= strings_view(old_out).push(renamed@));
        i = i + 1;
        assert(strings_view(out@) =~= spec_fake_names(strings_view(names@.take(i as int)), bus));
    }
    assert(names@.take(names@.len() as int) =~= names@);
    out
}

/// The string array in the body: empty when there is no body or it does
/// not decode as an array of strings.
pub open spec fn spec_parse_string_array(endian: Endian, raw: Seq<u8>) -> Seq<Seq<char>> {
    let bs = spec_body_start(endian, raw);
    if bs >= raw.len() {
        Seq::empty()
    } else {
        match dbus_string_array_decoding(raw.skip(bs), endian, bs as usize) {
            Some(v) => v,
            None => Seq::empty(),
        }
    }
}

/// Parse a string array from message body (for ListNames response).
pub fn parse_string_array(msg: &Message) -> (r: Result<Vec<String>, Error>)
    requires
        has_body_start(msg.header.endian, msg.raw@),
    ensures
        r matches Ok(v) && strings_view(v@) == spec_parse_string_array(msg.header.endian, msg.raw@),
{
    let body_start = get_body_start(msg.raw.as_slice(), msg.header.endian);
    let len = msg.raw.len();
    if body_start >= len {
        let v: Vec<String> = Vec::new();
        assert(strings_view(v@) =~= Seq::<Seq<char>>::empty());
        return Ok(v);
    }
    match decode_string_array(&msg.raw.as_slice()[body_start..len], msg.header.endian, body_start) {
        Some(names) => Ok(names),
        None => {
            let v: Vec<String> = Vec::new();
            assert(strings_view(v@) =~= Seq::<Seq<char>>::empty());
            Ok(v)
        },
    }
}

/// The reply with every unique name of its string array given the prefix
/// of `source`; the same bytes when the array is empty or absent.
pub open spec fn spec_rewrite_string_array_response(endian: Endian, raw: Seq<u8>, source: Bus) -> Result<Seq<u8>, Error> {
    let names = spec_parse_string_array(endian, raw);
    if names.len() == 0 {
        Ok(raw)
    } else if !string_array_fits(spec_fake_names(names, source)) {
        Err(Error::Encoding)
    } else {
        match dbus_string_array_encoding(spec_fake_names(names, source), endian) {
            Some(body) => Ok(spec_rebuild_with_body(raw, endian, body)),
            None => Err(Error::Encoding),
        }
    }
}

/// Rewrite unique names in string array response (for ListQueuedOwners).
pub fn rewrite_string_array_response(msg: &Message, source: Bus) -> (r: Result<Vec<u8>, Error>)
    requires
        has_body_start(msg.header.endian, msg.raw@),
    ensures
        match spec_rewrite_string_array_response(msg.header.endian, msg.raw@, source) {
            Ok(b) => r matches Ok(v) && v@ == b,
            Err(e) => r matches Err(re) && re == e,
        },
{
    let names = parse_string_array(msg)?;
    if names.len() == 0 {
        return Ok(raw_copy(msg));
    }
    let rewritten = fake_all(&names, source);
    if !string_array_fits_u32(&rewritten) {
        return Err(Error::Encoding);
    }
    let new_body = match encode_string_array(&rewritten, msg.header.endian) {
        Ok(b) => b,
        Err(_) => return Err(Error::Encoding),
    };
    rebuild_message_with_body(msg.raw.as_slice(), msg.header.endian, new_body.as_slice())
}

/// The ListNames reply with every unique name given the prefix of
/// `source`; the same bytes when there is no body or it does not decode.
pub open spec fn spec_rewrite_list_names_response(endian: Endian, raw: Seq<u8>, source: Bus) -> Result<Seq<u8>, Error> {
    let bs = spec_body_start(endian, raw);
    if bs >= raw.len() {
        Ok(raw)
    } else {
        match dbus_string_array_decoding(raw.skip(bs), endian, bs as usize) {
            None => Ok(raw),
            Some(names) => if !string_array_fits(spec_fake_names(names, source)) {
                Err(Error::Encoding)
            } else {
                match dbus_string_array_encoding(spec_fake_names(names, source), endian) {
                    Some(body) => Ok(spec_rebuild_with_body(raw, endian, body)),
                    None => Err(Error::Encoding),
                }
            },
        }
    }
}

/// Rewrite ListNames/ListActivatableNames response - add fake prefix to all unique names.
pub fn rewrite_list_names_response(msg: &Message, source: Bus) -> (r: Result<Vec<u8>, Error>)
    requires
        has_body_start(msg.header.endian, msg.raw@),
    ensures
        match spec_rewrite_list_names_response(msg.header.endian, msg.raw@, source) {
            Ok(b) => r matches Ok(v) && v@ == b,
            Err(e) => r matches Err(re) && re == e,
        },
{
    let body_start = get_body_start(msg.raw.as_slice(), msg.header.endian);
    let len = msg.raw.len();
    if body_start >= len {
        return Ok(raw_copy(msg));
    }
    let names = match decode_string_array(&msg.raw.as_slice()[body_start..len], msg.header.endian, body_start) {
        Some(names) => names,
        None => return Ok(raw_copy(msg)),
    };
    let rewritten = fake_all(&names, source);
    if !string_array_fits_u32(&rewritten) {
        return Err(Error::Encoding);
    }
    let new_body = match encode_string_array(&rewritten, msg.header.endian) {
        Ok(b) => b,
        Err(_) => return Err(Error::Encoding),
    };
    rebuild_message_with_body(msg.raw.as_slice(), msg.header.endian, new_body.as_slice())
}

/// The NameOwnerChanged signal with unique old and new owners given the
/// prefix of `source`; the same bytes when the body does not decode.
pub open spec fn spec_rewrite_name_owner_changed(endian: Endian, raw: Seq<u8>, source: Bus) -> Result<Seq<u8>, Error> {
    let bs = spec_body_start(endian, raw);
    if bs >= raw.len() {
        Ok(raw)
    } else {
        match dbus_string_triple_decoding(raw.skip(bs), endian, bs as usize) {
            None => Ok(raw),
            Some((name, old_owner, new_owner)) => if encode_utf8(name).len() > u32::MAX || encode_utf8(
                spec_to_fake_name(old_owner, source),
            ).len() > u32::MAX || encode_utf8(spec_to_fake_name(new_owner, source)).len() > u32::MAX {
                Err(Error::Encoding)
            } else {
                match dbus_string_triple_encoding(
                    name,
                    spec_to_fake_name(old_owner, source),
                    spec_to_fake_name(new_owner, source),
                    endian,
                ) {
                    Some(body) => Ok(spec_rebuild_with_body(raw, endian, body)),
                    None => Err(Error::Encoding),
                }
            },
        }
    }
}

/// Rewrite NameOwnerChanged signal body.
/// Body format: (name: s, old_owner: s, new_owner: s)
pub fn rewrite_name_owner_changed(msg: &Message, source: Bus) -> (r: Result<Vec<u8>, Error>)
    requires
        has_body_start(msg.header.endian, msg.raw@),
    ensures
        match spec_rewrite_name_owner_changed(msg.header.endian, msg.raw@, source) {
            Ok(b) => r matches Ok(v) && v@ == b,
            Err(e) => r matches Err(re) && re == e,
        },
{
    let body_start = get_body_start(msg.raw.as_slice(), msg.header.endian);
    let len = msg.raw.len();
    if body_start >= len {
        return Ok(raw_copy(msg));
    }
    let (name, old_owner, new_owner) = match decode_string_triple(
        &msg.raw.as_slice()[body_start..len],
        msg.header.endian,
        body_start,
    ) {
        Some(t) => t,
        None => return Ok(raw_copy(msg)),
    };
    let new_old_owner = if is_unique_name(old_owner.as_str()) && !old_owner.as_str().is_empty() {
        to_fake_name(old_owner.as_str(), source)
    } else {
        old_owner
    };
    let new_new_owner = if is_unique_name(new_owner.as_str()) && !new_owner.as_str().is_empty() {
        to_fake_name(new_owner.as_str(), source)
    } else {
        new_owner
    };
    if name.as_str().as_bytes().len() as u64 > 0xFFFF_FFFFu64 || new_old_owner.as_str().as_bytes().len() as u64
        > 0xFFFF_FFFFu64 || new_new_owner.as_str().as_bytes().len() as u64 > 0xFFFF_FFFFu64 {
        return Err(Error::Encoding);
    }
    let new_body = match encode_string_triple(name, new_old_owner, new_new_owner, msg.header.endian) {
        Ok(b) => b,
        Err(_) => return Err(Error::Encoding),
    };
    rebuild_message_with_body(msg.raw.as_slice(), msg.header.endian, new_body.as_slice())
}

/// `s` with every element after its first occurrence removed.
pub open spec fn spec_dedup(s: Seq<Seq<char>>) -> Seq<Seq<char>>
    decreases s.len(),
{
    if s.len() == 0 {
        s
    } else {
        let d = spec_dedup(s.drop_last());
        if d.contains(s.last()) {
            d
        } else {
            d.push(s.last())
        }
    }
}

/// The merged ListNames result: the sandbox names, then the host names,
/// each unique name with the prefix of its bus, every name once, in the
/// order of its first occurrence.
pub open spec fn spec_merge_list_names(host_names: Seq<Seq<char>>, sandbox_names: Seq<Seq<char>>) -> Seq<Seq<char>> {
    spec_dedup(spec_fake_names(sandbox_names, Bus::Sandbox) + spec_fake_names(host_names, Bus::Host))
}

/// `v` holds a string equal to `name`.
fn contains_string(v: &Vec<String>, name: &String) -> (r: bool)
    ensures
        r == strings_view(v@).contains(name@),
{
    let mut i: usize = 0;
    while i < v.len()
        invariant
            i <= v@.len(),
            forall|j: int| 0 <= j < i ==> v@[j]@ != name@,
        decreases v.len() - i,
    {
        if v[i] == *name {
            assert(strings_view(v@)[i as int] == name@);
            return true;
        }
        i = i + 1;
    }
    assert(!strings_view(v@).contains(name@)) by {
        if strings_view(v@).contains(name@) {
            let k = choose|k: int| 0 <= k < strings_view(v@).len() && strings_view(v@)[k] == name@;
            assert(v@[k]@ == name@);
        }
    }
    false
}

/// Add to `result` the names of one bus (unique names with its prefix),
/// skipping those already present.
fn merge_into(result: &mut Vec<String>, names: &Vec<String>, bus: Bus, Ghost(base): Ghost<Seq<Seq<char>>>)
    requires
        strings_view(old(result)@) == spec_dedup(base),
    ensures
        strings_view(final(result)@) == spec_dedup(base + spec_fake_names(strings_view(names@), bus)),
{
    let ghost keys = spec_fake_names(strings_view(names@), bus);
    let mut i: usize = 0;
    assert(base + keys.take(0) =~= base);
    while i < names.len()
        invariant
            i <= names@.len(),
            keys == spec_fake_names(strings_view(names@), bus),
            strings_view(result@) == spec_dedup(base + keys.take(i as int)),
        decreases names.len() - i,
    {
        let name = &names[i];
        let key = if is_unique_name(name.as_str()) {
            to_fake_name(name.as_str(), bus)
        } else {
            name.clone()
        };
        assert(key@ == keys[i as int]);
        let ghost s = base + keys.take(i + 1);
        assert(s.drop_last() =~= base + keys.take(i as int));
        assert(s.last() == key@);
        if !contains_string(result, &key) {
            let ghost before = result@;
            result.push(key);
            assert(strings_view(result@) =~= strings_view(before).push(keys[i as int]));
        }
        i = i + 1;
    }
    assert(keys.take(names@.len() as int) =~= keys);
}

/// Merge ListNames results from both buses: sandbox names first, then
/// host names, unique names with the prefix of their bus, no name twice.
pub fn merge_list_names(host_names: Vec<String>, sandbox_names: Vec<String>) -> (r: Vec<String>)
    ensures
        strings_view(r@) == spec_merge_list_names(strings_view(host_names@), strings_view(sandbox_names@)),
{
    let mut result: Vec<String> = Vec::new();
    assert(strings_view(result@) =~= spec_dedup(Seq::<Seq<char>>::empty()));
    merge_into(&mut result, &sandbox_names, Bus::Sandbox, Ghost(Seq::<Seq<char>>::empty()));
    let ghost first = spec_fake_names(strings_view(sandbox_names@), Bus::Sandbox);
    assert(Seq::<Seq<char>>::empty() + first =~= first);
    merge_into(&mut result, &host_names, Bus::Host, Ghost(first));
    result
}

/// The one-byte endian marker: `l` or `B`.
pub open spec fn endian_marker(endian: Endian) -> u8 {
    match endian {
        Endian::Little => 108u8,
        Endian::Big => 66u8,
    }
}

/// `serial + 1000000`, wrapping around at 2^32.
pub open spec fn reply_serial_of(serial: u32) -> u32 {
    ((serial + 1000000) % 0x1_0000_0000) as u32
}

/// A method return to a request with the given byte order and serial:
/// type 2, flag NO_REPLY_EXPECTED, protocol version 1, the body length, a
/// serial 1000000 past the request's, the encoded header fields, padding to
/// 8 bytes, the body.
pub open spec fn spec_method_return_bytes(endian: Endian, serial: u32, body: Seq<u8>, fields: Seq<u8>) -> Seq<u8> {
    seq![endian_marker(endian), 2u8, 1u8, 1u8] + spec_u32_bytes(endian, body.len() as u32) + spec_u32_bytes(
        endian,
        reply_serial_of(serial),
    ) + fields + Seq::new(spec_pad8(16 + fields.len() - 4) as nat, |_i: int| 0u8) + body
}

/// The header fields of a method return: REPLY_SERIAL (5) holding the
/// request's serial, then SIGNATURE (8) when the body has one.
pub open spec fn spec_reply_fields(serial: u32, signature: Option<Seq<char>>) -> Seq<(u8, HeaderValueView)> {
    match signature {
        Some(s) => seq![(5u8, HeaderValueView::U32(serial)), (8u8, HeaderValueView::Signature(s))],
        None => seq![(5u8, HeaderValueView::U32(serial))],
    }
}

/// The method return built for `request`, when its header fields encode
/// at stream position 12: a signature longer than 255 bytes cannot (its
/// length is one byte).
pub open spec fn spec_build_method_return(
    endian: Endian,
    serial: u32,
    body: Seq<u8>,
    signature: Option<Seq<char>>,
) -> Result<Seq<u8>, Error> {
    if signature matches Some(s) && encode_utf8(s).len() > 255 {
        Err(Error::Encoding)
    } else {
        match dbus_header_fields_encoding(spec_reply_fields(serial, signature), endian, 12) {
            Some(fields) => Ok(spec_method_return_bytes(endian, serial, body, fields)),
            None => Err(Error::Encoding),
        }
    }
}

/// Build a MethodReturn message answering `request`.
pub fn build_method_return(request: &Message, body: &[u8], signature: Option<&str>) -> (r: Result<Vec<u8>, Error>)
    ensures
        match spec_build_method_return(request.header.endian, request.header.serial, body@, opt_str_view(signature)) {
            Ok(b) => r matches Ok(v) && v@ == b,
            Err(e) => r matches Err(re) && re == e,
        },
{
    let endian = request.header.endian;
    let mut fields: Vec<(u8, FieldValue)> = Vec::new();
    fields.push((5u8, FieldValue::U32(request.header.serial)));
    if let Some(sig) = signature {
        if sig.as_bytes().len() > 255 {
            return Err(Error::Encoding);
        }
        fields.push((8u8, FieldValue::Signature(sig.to_owned())));
    }
    proof {
        assert(field_values_view(fields@) =~= spec_reply_fields(request.header.serial, opt_str_view(signature)));
    }
    let encoded = encode_header_fields(&fields, endian, 12);
    let fields_encoded = match encoded {
        Ok(f) => f,
        Err(_) => return Err(Error::Encoding),
    };
    let array_len = fields_encoded.len() - 4;
    let header_end: u128 = 16 + array_len as u128;
    let padding = ((8 - (header_end % 8)) % 8) as usize;
    let mut msg: Vec<u8> = Vec::new();
    msg.push(if endian == Endian::Little { 108u8 } else { 66u8 });
    msg.push(2u8);
    msg.push(1u8);
    msg.push(1u8);
    let body_len = #[verifier::truncate] (body.len() as u32);
    append_bytes(&mut msg, endian.u32_bytes(body_len).as_slice());
    let serial = if request.header.serial > 0xFFFF_FFFF - 1000000 {
        request.header.serial - (0xFFFF_FFFF - 1000000) - 1
    } else {
        request.header.serial + 1000000
    };
    assert(serial == reply_serial_of(request.header.serial));
    append_bytes(&mut msg, endian.u32_bytes(serial).as_slice());
    append_bytes(&mut msg, fields_encoded.as_slice());
    append_zeros(&mut msg, padding);
    append_bytes(&mut msg, body);
    assert(msg@ =~= spec_method_return_bytes(endian, request.header.serial, body@, fields_encoded@));
    Ok(msg)
}

/// The merged ListNames reply to `request`, with the names as its body.
pub open spec fn spec_build_list_names_response(endian: Endian, serial: u32, names: Seq<Seq<char>>) -> Result<Seq<u8>, Error> {
    if !string_array_fits(names) {
        Err(Error::Encoding)
    } else {
        match dbus_string_array_encoding(names, endian) {
            Some(body) => spec_build_method_return(endian, serial, body, Some("as"@)),
            None => Err(Error::Encoding),
        }
    }
}

/// Build a ListNames response message.
pub fn build_list_names_response(original_request: &Message, names: Vec<String>) -> (r: Result<Vec<u8>, Error>)
    ensures
        match spec_build_list_names_response(original_request.header.endian, original_request.header.serial, strings_view(names@)) {
            Ok(b) => r matches Ok(v) && v@ == b,
            Err(e) => r matches Err(re) && re == e,
        },
{
    if !string_array_fits_u32(&names) {
        return Err(Error::Encoding);
    }
    let body = match encode_string_array(&names, original_request.header.endian) {
        Ok(b) => b,
        Err(_) => return Err(Error::Encoding),
    };
    build_method_return(original_request, body.as_slice(), Some("as"))
}

/// Reading back the string a message was rebuilt with gives that string:
/// the header fields and the body start are kept, and the first body
/// argument is the new string.
#[verifier::spinoff_prover]
#[verifier::rlimit(40)]
pub proof fn law_rebuilt_string_reads_back(raw: Seq<u8>, endian: Endian, s: Seq<char>)
    requires
        body_start_within(endian, raw),
        encode_utf8(s).len() <= u32::MAX,
    ensures
        spec_body_start(endian, spec_rebuild_with_string(raw, endian, encode_utf8(s))) == spec_body_start(endian, raw),
        has_body_start(endian, spec_rebuild_with_string(raw, endian, encode_utf8(s))),
        spec_body_string(endian, spec_rebuild_with_string(raw, endian, encode_utf8(s))) == Some(s),
{
    let bytes = encode_utf8(s);
    let n = bytes.len() as u32;
    let body = spec_dbus_string(endian, bytes);
    let nr = spec_rebuild_with_string(raw, endian, bytes);
    let bs = spec_body_start(endian, raw);
    assert(nr.subrange(12, 16) =~= raw.subrange(12, 16));
    assert(nr[12] == raw[12] && nr[13] == raw[13] && nr[14] == raw[14] && nr[15] == raw[15]);
    assert(spec_body_start(endian, nr) == bs);
    law_u32_roundtrip(endian, n);
    let lb = spec_u32_bytes(endian, n);
    assert(nr[bs] == lb[0] && nr[bs + 1] == lb[1] && nr[bs + 2] == lb[2] && nr[bs + 3] == lb[3]);
    assert(spec_u32_at(endian, nr, bs) == n);
    assert(nr.len() == bs + n + 5);
    assert(nr.subrange(bs + 4, bs + 4 + n) =~= bytes);
}

/// `s` holds no element twice.
pub open spec fn no_duplicates(s: Seq<Seq<char>>) -> bool {
    forall|i: int, j: int| 0 <= i < j < s.len() ==> s[i] != s[j]
}

/// Removing repeats keeps exactly the elements, each once.
pub proof fn lemma_dedup(s: Seq<Seq<char>>)
    ensures
        no_duplicates(spec_dedup(s)),
        forall|x: Seq<char>| spec_dedup(s).contains(x) <==> s.contains(x),
    decreases s.len(),
{
    if s.len() > 0 {
        lemma_dedup(s.drop_last());
        let d = spec_dedup(s.drop_last());
        assert forall|x: Seq<char>| spec_dedup(s).contains(x) <==> s.contains(x) by {
            if s.contains(x) {
                let k = choose|k: int| 0 <= k < s.len() && s[k] == x;
                if k < s.len() - 1 {
                    assert(s.drop_last()[k] == x);
                }
            }
            if s.drop_last().contains(x) {
                let k = choose|k: int| 0 <= k < s.drop_last().len() && s.drop_last()[k] == x;
                assert(s[k] == x);
            }
            if !d.contains(s.last()) {
                if d.push(s.last()).contains(x) {
                    let k = choose|k: int| 0 <= k < d.push(s.last()).len() && d.push(s.last())[k] == x;
                    if k < d.len() {
                        assert(d[k] == x);
                    }
                }
                if d.contains(x) {
                    let k = choose|k: int| 0 <= k < d.len() && d[k] == x;
                    assert(d.push(s.last())[k] == x);
                }
                assert(d.push(s.last())[d.len() as int] == s.last());
            }
        }
    }
}

/// The merged ListNames result names every name of both buses (unique
/// names with the prefix of their bus), nothing else, and no name twice.
pub proof fn law_merge_list_names(host_names: Seq<Seq<char>>, sandbox_names: Seq<Seq<char>>)
    ensures
        no_duplicates(spec_merge_list_names(host_names, sandbox_names)),
        forall|i: int| 0 <= i < sandbox_names.len() ==> spec_merge_list_names(host_names, sandbox_names).contains(
            spec_to_fake_name(#[trigger] sandbox_names[i], Bus::Sandbox),
        ),
        forall|i: int| 0 <= i < host_names.len() ==> spec_merge_list_names(host_names, sandbox_names).contains(
            spec_to_fake_name(#[trigger] host_names[i], Bus::Host),
        ),
        forall|x: Seq<char>| #[trigger] spec_merge_list_names(host_names, sandbox_names).contains(x) ==> (
            exists|i: int| 0 <= i < sandbox_names.len() && x == spec_to_fake_name(sandbox_names[i], Bus::Sandbox))
            || (exists|i: int| 0 <= i < host_names.len() && x == spec_to_fake_name(host_names[i], Bus::Host)),
{
    let a = spec_fake_names(sandbox_names, Bus::Sandbox);
    let b = spec_fake_names(host_names, Bus::Host);
    let all = a + b;
    lemma_dedup(all);
    assert(spec_merge_list_names(host_names, sandbox_names) == spec_dedup(all));
    assert forall|i: int| 0 <= i < sandbox_names.len() implies spec_merge_list_names(host_names, sandbox_names).contains(
        spec_to_fake_name(#[trigger] sandbox_names[i], Bus::Sandbox),
    ) by {
        assert(all[i] == a[i]);
        assert(all.contains(all[i]));
    }
    assert forall|i: int| 0 <= i < host_names.len() implies spec_merge_list_names(host_names, sandbox_names).contains(
        spec_to_fake_name(#[trigger] host_names[i], Bus::Host),
    ) by {
        assert(all[a.len() + i] == b[i]);
        assert(all.contains(all[a.len() + i]));
    }
    assert forall|x: Seq<char>| #[trigger] spec_merge_list_names(host_names, sandbox_names).contains(x) implies (
        exists|i: int| 0 <= i < sandbox_names.len() && x == spec_to_fake_name(sandbox_names[i], Bus::Sandbox))
        || (exists|i: int| 0 <= i < host_names.len() && x == spec_to_fake_name(host_names[i], Bus::Host)) by {
        assert(spec_dedup(all).contains(x));
        assert(all.contains(x));
        let k = choose|k: int| 0 <= k < all.len() && all[k] == x;
        if k < a.len() {
            assert(x == spec_to_fake_name(sandbox_names[k], Bus::Sandbox));
        } else {
            assert(x == spec_to_fake_name(host_names[k - a.len()], Bus::Host));
        }
    }
}

/// A reply whose body is a real unique name is rewritten to carry the
/// fake name of the bus it came from, which turns back into the real name
/// and that bus.
pub proof fn law_single_name_reply_fake(raw: Seq<u8>, endian: Endian, source: Bus, name: Seq<char>)
    requires
        body_start_within(endian, raw),
        spec_body_string_bytes(endian, raw) == Some(encode_utf8(name)),
        spec_is_unique_name(name),
        encode_utf8(spec_to_fake_name(name, source)).len() <= u32::MAX,
    ensures
        spec_body_string(endian, spec_rewrite_single_name_response(endian, raw, source)) == Some(
            spec_to_fake_name(name, source),
        ),
        spec_from_fake_name(spec_to_fake_name(name, source)) == Some((name, source)),
{
    law_rebuilt_string_reads_back(raw, endian, spec_to_fake_name(name, source));
    crate::fake_name::law_fake_name_roundtrip(name, source);
}

/// A match rule whose sender is the fake unique name of either bus is
/// forwarded with that sender made real: the rewrite happens whichever bus
/// the prefix names, and the new message's body string reads back as the
/// rule with the sender replaced by the real unique name.
pub proof fn law_match_rule_sender_made_real(
    endian: Endian,
    raw: Seq<u8>,
    body: Seq<u8>,
    sender: Seq<char>,
    real_name: Seq<char>,
    bus: Bus,
)
    requires
        spec_body_string_bytes(endian, raw) == Some(body),
        spec_match_rule_sender(spec_lossy_text(body)) == Some(sender),
        spec_from_fake_name(sender) == Some((real_name, bus)),
    ensures
        spec_rewrite_match_rule_body(endian, raw) is Some,
        body_start_within(endian, raw) && encode_utf8(
            spec_rewrite_match_rule_sender(spec_lossy_text(body), sender, real_name),
        ).len() <= u32::MAX ==> spec_body_string(endian, spec_rewrite_match_rule_body(endian, raw).unwrap()) == Some(
            spec_rewrite_match_rule_sender(spec_lossy_text(body), sender, real_name),
        ),
{
    let new_rule = spec_rewrite_match_rule_sender(spec_lossy_text(body), sender, real_name);
    if body_start_within(endian, raw) && encode_utf8(new_rule).len() <= u32::MAX {
        law_rebuilt_string_reads_back(raw, endian, new_rule);
    }
}

} // verus!
