//! The decisions of a client session: where each message from the client
//! goes, what each message from an upstream bus becomes before it reaches
//! the client, and the bookkeeping that connects replies to their calls.
//!
//! The session is a state machine. Each message read from a connection is
//! an event; the step functions update the state and return the delivery
//! to perform. Reading and writing the sockets is left to the caller.

use vstd::prelude::*;
use std::collections::HashMap;
use vstd::string::*;
use vstd::utf8::*;
use crate::bus::Bus;
use crate::codec::{dbus_header_fields_encoding, encode_header_fields, field_values_view, strings_view, FieldValue, HeaderValueView};
use crate::config::{spec_has_hostpass, Config};
use crate::daemon::{
    body_string_readable, is_body_string_readable, build_list_names_response, merge_list_names, needs_request_rewrite,
    needs_response_rewrite, no_duplicates, parse_string_array, rewrite_match_rule_body,
    rewrite_name_owner_changed, rewrite_single_name_response, rewrite_string_array_response,
    rewrite_unique_name_request, signal_needs_rewrite, spec_build_list_names_response,
    spec_merge_list_names, spec_needs_request_rewrite, spec_needs_response_rewrite,
    spec_parse_string_array, spec_rewrite_match_rule_body, spec_rewrite_name_owner_changed,
    spec_rewrite_single_name_response, spec_rewrite_string_array_response,
    spec_rewrite_unique_name_request, spec_signal_needs_rewrite,
};
use crate::error::Error;
use crate::message::{body_start_fits, has_body_start, spec_body_string, spec_is_request_name, Message, MessageHeader, MessageType};
use crate::rewrite::{
    rewrite_message_header, rewritten_field_code, spec_header_rewrite_value,
    spec_rewrite_header_field, RewriteDirection,
};
use crate::routing::{law_hostpass_routes_to_host, route_request, routes_by_body, spec_is_match_rule_method, spec_route_request, RouteDecision};
use crate::text::{opt_str_is, opt_string_copy, opt_view, spec_opt_is, str_eq};
use crate::wire::{append_bytes, append_zeros, spec_pad8, spec_u32_bytes, Endian};

verus! {

broadcast use vstd::std_specs::hash::group_hash_axioms;

/// What the session remembers of a call it forwarded to a bus.
#[derive(Debug, Clone)]
pub struct PendingCallInfo {
    /// Which bus the call was sent to.
    pub bus: Bus,
    /// The member (method name) of the call.
    pub member: Option<String>,
}

/// A `ListNames`/`ListActivatableNames` call waiting for the replies of
/// both buses.
#[derive(Debug)]
pub struct PendingMerge {
    /// The request, to build the merged reply from.
    pub original_request: Message,
    /// The first reply's bus and names, once it has arrived.
    pub first_response: Option<(Bus, Vec<String>)>,
}

/// The mathematical content of a pending merge: the request's header and
/// bytes, and the first reply if any.
pub open spec fn merge_view(p: PendingMerge) -> (MessageHeader, Seq<u8>, Option<(Bus, Seq<Seq<char>>)>) {
    (
        p.original_request.header,
        p.original_request.raw@,
        match p.first_response {
            Some((b, names)) => Some((b, strings_view(names@))),
            None => None,
        },
    )
}

/// The pending merges, keyed by the serial of their request.
pub open spec fn merges_view(m: Map<u32, PendingMerge>) -> Map<u32, (MessageHeader, Seq<u8>, Option<(Bus, Seq<Seq<char>>)>)> {
    m.map_values(|p: PendingMerge| merge_view(p))
}

/// The state of one client session.
pub struct SessionState {
    /// Routing configuration.
    pub config: Config,
    /// Executable path of the client process, when it could be found.
    pub client_exe_path: Option<String>,
    /// The bus and member of each call forwarded upstream, by serial.
    pub pending_calls: HashMap<u32, PendingCallInfo>,
    /// Names the client owns on the host bus (each once).
    pub exported_services: Vec<String>,
    /// Names the client owns on the sandbox bus (each once).
    pub sandbox_services: Vec<String>,
    /// The bus each call into one of the client's services came from, by serial.
    pub incoming_calls: HashMap<u32, Bus>,
    /// Merges waiting for their replies, by request serial.
    pub pending_merges: HashMap<u32, PendingMerge>,
}

impl SessionState {
    /// No service name is recorded twice.
    pub open spec fn wf(&self) -> bool {
        &&& no_duplicates(strings_view(self.exported_services@))
        &&& no_duplicates(strings_view(self.sandbox_services@))
    }

    /// The client's executable has a hostpass entry.
    pub open spec fn spec_is_hostpass(&self) -> bool {
        self.client_exe_path matches Some(p) && spec_has_hostpass(self.config@, p@)
    }

    /// A fresh session for a client whose executable is `client_exe_path`.
    pub fn new(config: Config, client_exe_path: Option<String>) -> (r: SessionState)
        ensures
            r.wf(),
            r.config == config,
            r.client_exe_path == client_exe_path,
            r.pending_calls@ == Map::<u32, PendingCallInfo>::empty(),
            r.exported_services@.len() == 0,
            r.sandbox_services@.len() == 0,
            r.incoming_calls@ == Map::<u32, Bus>::empty(),
            r.pending_merges@ == Map::<u32, PendingMerge>::empty(),
    {
        let r = SessionState {
            config,
            client_exe_path,
            pending_calls: HashMap::new(),
            exported_services: Vec::new(),
            sandbox_services: Vec::new(),
            incoming_calls: HashMap::new(),
            pending_merges: HashMap::new(),
        };
        assert(strings_view(r.exported_services@) =~= Seq::<Seq<char>>::empty());
        assert(strings_view(r.sandbox_services@) =~= Seq::<Seq<char>>::empty());
        r
    }

    /// The client is a hostpass client: its executable's path matches a
    /// hostpass pattern. Such a client talks to the host bus only, and its session
    /// outlives the sandbox bus.
    pub fn is_hostpass(&self) -> (r: bool)
        ensures
            r == (self.client_exe_path matches Some(p) && spec_has_hostpass(self.config@, p@)),
    {
        match &self.client_exe_path {
            Some(p) => self.config.has_hostpass(p.as_str()),
            None => false,
        }
    }
}

/// A connection of a session that was closed, or could not be read.
#[derive(Debug, Clone, Copy, PartialEq, Eq, Structural)]
pub enum ClosedConn {
    /// The client's connection.
    Client,
    /// The connection to the host bus.
    Host,
    /// The connection to the sandbox bus.
    Sandbox,
}

/// What a session does once a connection is gone.
#[derive(Debug, Clone, Copy, PartialEq, Eq, Structural)]
pub enum AfterClose {
    /// The session ends.
    Stop,
    /// The session goes on without the sandbox bus.
    DropSandbox,
}

impl SessionState {
    /// What the session does when `closed` is gone: a hostpass client only
    /// uses the host bus, so its session outlives the sandbox bus; losing
    /// any other connection, or the sandbox bus of another client, ends the
    /// session.
    pub fn on_connection_closed(&self, closed: ClosedConn) -> (r: AfterClose)
        ensures
            r == (if closed == ClosedConn::Sandbox && self.spec_is_hostpass() {
                AfterClose::DropSandbox
            } else {
                AfterClose::Stop
            }),
    {
        if closed == ClosedConn::Sandbox && self.is_hostpass() {
            AfterClose::DropSandbox
        } else {
            AfterClose::Stop
        }
    }

    /// Whether the router says `Hello()` on the host bus for this client
    /// during authentication: not for a hostpass client, whose own
    /// `Hello()` is forwarded to the host bus.
    pub fn sends_host_hello(&self) -> (r: bool)
        ensures
            r == !self.spec_is_hostpass(),
    {
        !self.is_hostpass()
    }
}

/// `name` is in the list.
fn contains_name(names: &Vec<String>, name: &str) -> (r: bool)
    ensures
        r == strings_view(names@).contains(name@),
{
    let mut i: usize = 0;
    while i < names.len()
        invariant
            i <= names@.len(),
            forall|j: int| 0 <= j < i ==> names@[j]@ != name@,
        decreases names.len() - i,
    {
        if str_eq(names[i].as_str(), name) {
            assert(strings_view(names@)[i as int] == name@);
            return true;
        }
        i = i + 1;
    }
    assert forall|j: int| 0 <= j < strings_view(names@).len() implies strings_view(names@)[j] != name@ by {
        assert(strings_view(names@)[j] == names@[j]@);
    }
    false
}

/// Add `name` to a list of names without repeats.
fn add_name(names: &mut Vec<String>, name: String)
    requires
        no_duplicates(strings_view(old(names)@)),
    ensures
        no_duplicates(strings_view(final(names)@)),
        strings_view(final(names)@) == if strings_view(old(names)@).contains(name@) {
            strings_view(old(names)@)
        } else {
            strings_view(old(names)@).push(name@)
        },
{
    if !contains_name(names, name.as_str()) {
        let ghost before = strings_view(names@);
        names.push(name);
        assert(strings_view(names@) =~= before.push(names@.last()@));
    }
}

/// Log label for a call arriving from a bus into a service the client owns.
pub fn service_call_label(bus: Bus) -> (r: &'static str)
    ensures
        r@ == match bus {
            Bus::Host => "Host->Client(exported)"@,
            Bus::Sandbox => "Sandbox->Client(service)"@,
        },
{
    match bus {
        Bus::Host => "Host->Client(exported)",
        Bus::Sandbox => "Sandbox->Client(service)",
    }
}

/// Log label for anything else a bus sends down to the client.
pub fn forwarded_label(bus: Bus) -> (r: &'static str)
    ensures
        r@ == match bus {
            Bus::Host => "Host->Client"@,
            Bus::Sandbox => "Sandbox->Client"@,
        },
{
    match bus {
        Bus::Host => "Host->Client",
        Bus::Sandbox => "Sandbox->Client",
    }
}

/// Log label for a reply the client sends back to a bus that called into it.
pub fn reply_label(bus: Bus) -> (r: &'static str)
    ensures
        r@ == match bus {
            Bus::Host => "Client->Host(reply)"@,
            Bus::Sandbox => "Client->Sandbox(reply)"@,
        },
{
    match bus {
        Bus::Host => "Client->Host(reply)",
        Bus::Sandbox => "Client->Sandbox(reply)",
    }
}

/// The `Hello()` call with the given encoded header fields: little endian,
/// a method call with no flags, protocol version 1, an empty body, serial
/// 1, the fields, then zeros up to an 8-byte boundary.
pub open spec fn spec_hello_call(fields: Seq<u8>) -> Seq<u8> {
    seq![108u8, 1u8, 0u8, 1u8] + spec_u32_bytes(Endian::Little, 0) + spec_u32_bytes(Endian::Little, 1) + fields
        + Seq::new(spec_pad8(12 + fields.len() as int) as nat, |_i: int| 0u8)
}

/// The header fields of the `Hello()` call: PATH (1), INTERFACE (2),
/// MEMBER (3) and DESTINATION (6) of the bus daemon's `Hello` method.
pub open spec fn spec_hello_fields() -> Seq<(u8, HeaderValueView)> {
    seq![
        (1u8, HeaderValueView::ObjectPath("/org/freedesktop/DBus"@)),
        (2u8, HeaderValueView::Str("org.freedesktop.DBus"@)),
        (3u8, HeaderValueView::Str("Hello"@)),
        (6u8, HeaderValueView::Str("org.freedesktop.DBus"@)),
    ]
}

/// The `Hello()` call on the host bus daemon, when its header fields
/// encode (little endian, at stream position 12).
pub open spec fn spec_build_hello_call() -> Result<Seq<u8>, Error> {
    match dbus_header_fields_encoding(spec_hello_fields(), Endian::Little, 12) {
        Some(fields) => Ok(spec_hello_call(fields)),
        None => Err(Error::Encoding),
    }
}

/// Wire bytes of the `Hello()` method call the router makes on the host bus
/// on the client's behalf.
pub fn build_hello_call() -> (r: Result<Vec<u8>, Error>)
    ensures
        match spec_build_hello_call() {
            Ok(b) => r matches Ok(v) && v@ == b,
            Err(e) => r matches Err(re) && re == e,
        },
{
    let mut hello_fields: Vec<(u8, FieldValue)> = Vec::new();
    hello_fields.push((1u8, FieldValue::ObjectPath("/org/freedesktop/DBus".to_owned())));
    hello_fields.push((2u8, FieldValue::Str("org.freedesktop.DBus".to_owned())));
    hello_fields.push((3u8, FieldValue::Str("Hello".to_owned())));
    hello_fields.push((6u8, FieldValue::Str("org.freedesktop.DBus".to_owned())));
    proof {
        reveal_strlit("/org/freedesktop/DBus");
        reveal_strlit("org.freedesktop.DBus");
        reveal_strlit("Hello");
        assert(is_ascii_chars("/org/freedesktop/DBus"@));
        assert(is_ascii_chars("org.freedesktop.DBus"@));
        assert(is_ascii_chars("Hello"@));
        is_ascii_chars_encode_utf8("/org/freedesktop/DBus"@);
        is_ascii_chars_encode_utf8("org.freedesktop.DBus"@);
        is_ascii_chars_encode_utf8("Hello"@);
        assert(field_values_view(hello_fields@) =~= spec_hello_fields());
    }
    let fields = match encode_header_fields(&hello_fields, Endian::Little, 12) {
        Ok(f) => f,
        Err(_) => return Err(Error::Encoding),
    };
    let header_end: u128 = 12 + fields.len() as u128;
    let padding = ((8 - (header_end % 8)) % 8) as usize;
    let mut msg: Vec<u8> = Vec::new();
    msg.push(108u8);
    msg.push(1u8);
    msg.push(0u8);
    msg.push(1u8);
    append_bytes(&mut msg, Endian::Little.u32_bytes(0).as_slice());
    append_bytes(&mut msg, Endian::Little.u32_bytes(1).as_slice());
    append_bytes(&mut msg, fields.as_slice());
    append_zeros(&mut msg, padding);
    assert(msg@ =~= spec_hello_call(fields@));
    Ok(msg)
}

/// What a step asks the caller to send, and where. The file descriptors
/// that came with the message travel with it, except where noted.
#[derive(Debug)]
pub enum Delivery {
    /// Send these bytes to one bus.
    ToBus(Bus, Vec<u8>),
    /// Send these bytes to both buses.
    ToBoth(Vec<u8>),
    /// Send these bytes to the client.
    ToClient(Vec<u8>),
    /// Send these bytes to the client, without descriptors (a merged reply).
    ToClientWithoutFds(Vec<u8>),
    /// Send nothing yet.
    Held,
}

/// The mathematical content of a delivery.
pub enum DeliveryView {
    ToBus(Bus, Seq<u8>),
    ToBoth(Seq<u8>),
    ToClient(Seq<u8>),
    ToClientWithoutFds(Seq<u8>),
    Held,
}

impl Delivery {
    pub open spec fn view(&self) -> DeliveryView {
        match self {
            Delivery::ToBus(b, v) => DeliveryView::ToBus(*b, v@),
            Delivery::ToBoth(v) => DeliveryView::ToBoth(v@),
            Delivery::ToClient(v) => DeliveryView::ToClient(v@),
            Delivery::ToClientWithoutFds(v) => DeliveryView::ToClientWithoutFds(v@),
            Delivery::Held => DeliveryView::Held,
        }
    }
}

/// The bytes of a message after its header was rewritten in `direction`;
/// the bytes as they were when there is nothing to rewrite or the rewrite
/// fails.
pub open spec fn spec_rewritten_raw(h: MessageHeader, raw: Seq<u8>, direction: RewriteDirection, bus: Bus) -> Seq<u8> {
    match spec_header_rewrite_value(h, direction, bus) {
        None => raw,
        Some(v) => match spec_rewrite_header_field(raw, h.endian, rewritten_field_code(direction), encode_utf8(v)) {
            Ok(b) => b,
            Err(_) => raw,
        },
    }
}

/// The destination of a message after its header was rewritten towards a
/// bus.
pub open spec fn spec_upstream_destination(h: MessageHeader, raw: Seq<u8>, bus: Bus) -> Option<Seq<char>> {
    match spec_header_rewrite_value(h, RewriteDirection::ToUpstream, bus) {
        Some(v) => match spec_rewrite_header_field(raw, h.endian, 6, encode_utf8(v)) {
            Ok(_) => Some(v),
            Err(_) => opt_view(h.destination),
        },
        None => opt_view(h.destination),
    }
}

/// A request whose body a rewrite reads: a call on the bus daemon whose
/// argument is a unique name or a match rule.
pub open spec fn spec_request_body_reads(destination: Option<Seq<char>>, member: Option<Seq<char>>) -> bool {
    &&& destination == Some("org.freedesktop.DBus"@)
    &&& member matches Some(m) && (spec_needs_request_rewrite(m) || spec_is_match_rule_method(m))
}

/// The match rule body with the client's fake sender made real; the bytes
/// as they were when there is nothing to rewrite.
pub open spec fn spec_match_rule_body_or_original(endian: Endian, raw: Seq<u8>) -> Seq<u8> {
    match spec_rewrite_match_rule_body(endian, raw) {
        Some(b) => b,
        None => raw,
    }
}

/// The body of a request as it goes to a bus: calls on the bus daemon lose
/// the fake prefix of their unique name argument or of the sender of their
/// match rule; everything else, and any rewrite that fails, is unchanged.
pub open spec fn spec_request_body(
    destination: Option<Seq<char>>,
    member: Option<Seq<char>>,
    endian: Endian,
    raw: Seq<u8>,
) -> Seq<u8> {
    if destination == Some("org.freedesktop.DBus"@) && member is Some {
        let m = member.unwrap();
        if spec_needs_request_rewrite(m) {
            match spec_rewrite_unique_name_request(endian, raw) {
                Ok((b, _)) => b,
                Err(_) => raw,
            }
        } else if spec_is_match_rule_method(m) {
            spec_match_rule_body_or_original(endian, raw)
        } else {
            raw
        }
    } else {
        raw
    }
}

/// A reply or error from the client to a call that came into one of its
/// services from a bus.
pub open spec fn spec_answers_incoming(incoming: Map<u32, Bus>, h: MessageHeader) -> bool {
    &&& h.msg_type == MessageType::MethodReturn || h.msg_type == MessageType::Error
    &&& h.reply_serial matches Some(rs) && incoming.contains_key(rs)
}

/// Where the session routes a request of the client.
pub open spec fn spec_client_route(s: SessionState, msg: Message) -> RouteDecision {
    spec_route_request(s.config@, msg.header, msg.raw@, opt_view(s.client_exe_path))
}

/// The names a client owns after a request: a `RequestName` routed to the
/// bus whose list this is adds its name argument (once).
pub open spec fn spec_track_name(names: Seq<Seq<char>>, msg: Message, routed_here: bool) -> Seq<Seq<char>> {
    if routed_here && spec_is_request_name(msg.header) && spec_body_string(msg.header.endian, msg.raw@) is Some {
        let n = spec_body_string(msg.header.endian, msg.raw@).unwrap();
        if names.contains(n) {
            names
        } else {
            names.push(n)
        }
    } else {
        names
    }
}

/// The client's message is one on which no step of its handling reads past
/// its bytes: the header rewrite, the routing, the name tracking and the
/// body rewrites that its path takes.
pub open spec fn spec_client_message_safe(s: SessionState, msg: Message) -> bool {
    let h = msg.header;
    let raw = msg.raw@;
    if spec_answers_incoming(s.incoming_calls@, h) {
        true
    } else {
        &&& ((crate::routing::spec_routes_by_body(h) && !s.spec_is_hostpass()) || spec_is_request_name(h))
            ==> has_body_start(h.endian, raw)
        &&& match spec_client_route(s, msg) {
            RouteDecision::Single(t) => {
                spec_request_body_reads(spec_upstream_destination(h, raw, t), opt_view(h.member))
                    ==> body_string_readable(h.endian, spec_rewritten_raw(h, raw, RewriteDirection::ToUpstream, t))
            },
            RouteDecision::Both => (h.member matches Some(m) && spec_is_match_rule_method(m@)) ==> body_string_readable(
                h.endian,
                raw,
            ),
            RouteDecision::Merge => true,
        }
    }
}

/// What the session sends for a message of the client. A reply to a call
/// into the client's service goes back to the bus the call came from, its
/// fake destination made real. A request goes where routing sends it: to
/// one bus with a real destination and a rewritten body, to both buses
/// (a match rule without sender, its body rewritten), or to both buses as
/// it is (a call whose replies are merged).
pub open spec fn spec_client_delivery(s: SessionState, msg: Message) -> DeliveryView {
    let h = msg.header;
    let raw = msg.raw@;
    if spec_answers_incoming(s.incoming_calls@, h) {
        let bus = s.incoming_calls@[h.reply_serial.unwrap()];
        DeliveryView::ToBus(bus, spec_rewritten_raw(h, raw, RewriteDirection::ToUpstream, bus))
    } else {
        match spec_client_route(s, msg) {
            RouteDecision::Single(t) => DeliveryView::ToBus(
                t,
                spec_request_body(
                    spec_upstream_destination(h, raw, t),
                    opt_view(h.member),
                    h.endian,
                    spec_rewritten_raw(h, raw, RewriteDirection::ToUpstream, t),
                ),
            ),
            RouteDecision::Both => DeliveryView::ToBoth(
                if h.member matches Some(m) && spec_is_match_rule_method(m@) {
                    spec_match_rule_body_or_original(h.endian, raw)
                } else {
                    raw
                },
            ),
            RouteDecision::Merge => DeliveryView::ToBoth(raw),
        }
    }
}

/// How a message of the client changes the session. A reply to an incoming
/// call forgets that call. A request is remembered with its bus and member
/// (under the sandbox bus when it went to both), or, when its replies are
/// merged, as a pending merge; a `RequestName` routed to one bus adds the
/// name to the names the client owns there.
pub open spec fn spec_client_step(pre: SessionState, post: SessionState, msg: Message) -> bool {
    let h = msg.header;
    &&& post.wf()
    &&& post.config == pre.config
    &&& post.client_exe_path == pre.client_exe_path
    &&& if spec_answers_incoming(pre.incoming_calls@, h) {
        &&& post.incoming_calls@ == pre.incoming_calls@.remove(h.reply_serial.unwrap())
        &&& post.pending_calls@ == pre.pending_calls@
        &&& post.pending_merges@ == pre.pending_merges@
        &&& post.exported_services@ == pre.exported_services@
        &&& post.sandbox_services@ == pre.sandbox_services@
    } else {
        let decision = spec_client_route(pre, msg);
        &&& post.incoming_calls@ == pre.incoming_calls@
        &&& strings_view(post.exported_services@) == spec_track_name(
            strings_view(pre.exported_services@),
            msg,
            decision == RouteDecision::Single(Bus::Host),
        )
        &&& strings_view(post.sandbox_services@) == spec_track_name(
            strings_view(pre.sandbox_services@),
            msg,
            decision == RouteDecision::Single(Bus::Sandbox),
        )
        &&& match decision {
            RouteDecision::Single(t) => {
                &&& post.pending_calls@ == pre.pending_calls@.insert(h.serial, PendingCallInfo { bus: t, member: h.member })
                &&& post.pending_merges@ == pre.pending_merges@
            },
            RouteDecision::Both => {
                &&& post.pending_calls@ == pre.pending_calls@.insert(
                    h.serial,
                    PendingCallInfo { bus: Bus::Sandbox, member: h.member },
                )
                &&& post.pending_merges@ == pre.pending_merges@
            },
            RouteDecision::Merge => {
                &&& post.pending_calls@ == pre.pending_calls@
                &&& merges_view(post.pending_merges@) == merges_view(pre.pending_merges@).insert(
                    h.serial,
                    (h, msg.raw@, None),
                )
            },
        }
    }
}

/// Copy of the bytes of a message.
fn copy_raw(msg: &Message) -> (r: Vec<u8>)
    ensures
        r@ == msg.raw@,
{
    let mut v: Vec<u8> = Vec::new();
    append_bytes(&mut v, msg.raw.as_slice());
    v
}

/// `member` names a method whose argument is a match rule.
fn is_match_rule_member(member: &str) -> (r: bool)
    ensures
        r == spec_is_match_rule_method(member@),
{
    str_eq(member, "AddMatch") || str_eq(member, "RemoveMatch")
}

/// Match-rule body with the client's sender rewritten; the bytes as they were
/// when there is nothing to rewrite.
fn match_rule_body_or_original(msg: &Message) -> (r: Vec<u8>)
    requires
        body_string_readable(msg.header.endian, msg.raw@),
    ensures
        r@ == spec_match_rule_body_or_original(msg.header.endian, msg.raw@),
{
    match rewrite_match_rule_body(msg) {
        Ok(Some(rewritten)) => rewritten,
        _ => copy_raw(msg),
    }
}

/// Body rewrites that only apply to calls addressed to the bus daemon
/// itself. Anything else, and any rewrite failure, keeps the bytes.
fn rewrite_request_body(msg: &Message) -> (r: Vec<u8>)
    requires
        spec_request_body_reads(opt_view(msg.header.destination), opt_view(msg.header.member)) ==> body_string_readable(
            msg.header.endian,
            msg.raw@,
        ),
    ensures
        r@ == spec_request_body(opt_view(msg.header.destination), opt_view(msg.header.member), msg.header.endian, msg.raw@),
{
    if !opt_str_is(&msg.header.destination, "org.freedesktop.DBus") {
        return copy_raw(msg);
    }
    let member = match &msg.header.member {
        Some(m) => m.as_str(),
        None => return copy_raw(msg),
    };
    if needs_request_rewrite(member) {
        return match rewrite_unique_name_request(msg) {
            Ok((rewritten, _bus)) => rewritten,
            Err(_) => copy_raw(msg),
        };
    }
    if is_match_rule_member(member) {
        return match_rule_body_or_original(msg);
    }
    copy_raw(msg)
}

impl SessionState {
    /// A MethodReturn/Error answering a call that came in from a bus goes
    /// straight back to that bus, with the fake unique name in its
    /// destination undone. `None` when the message is no such reply.
    fn forward_reply_to_caller(&mut self, msg: &Message) -> (r: Option<Delivery>)
        ensures
            !spec_answers_incoming(old(self).incoming_calls@, msg.header) ==> r is None && *final(self) == *old(self),
            spec_answers_incoming(old(self).incoming_calls@, msg.header) ==> {
                let bus = old(self).incoming_calls@[msg.header.reply_serial.unwrap()];
                &&& r matches Some(d) && d@ == DeliveryView::ToBus(
                    bus,
                    spec_rewritten_raw(msg.header, msg.raw@, RewriteDirection::ToUpstream, bus),
                )
                &&& final(self).incoming_calls@ == old(self).incoming_calls@.remove(msg.header.reply_serial.unwrap())
                &&& final(self).config == old(self).config
                &&& final(self).client_exe_path == old(self).client_exe_path
                &&& final(self).pending_calls == old(self).pending_calls
                &&& final(self).pending_merges == old(self).pending_merges
                &&& final(self).exported_services == old(self).exported_services
                &&& final(self).sandbox_services == old(self).sandbox_services
            },
    {
        if !(msg.header.msg_type == MessageType::MethodReturn || msg.header.msg_type == MessageType::Error) {
            return None;
        }
        let reply_serial = match msg.header.reply_serial {
            Some(rs) => rs,
            None => return None,
        };
        if !self.incoming_calls.contains_key(&reply_serial) {
            return None;
        }
        let source_bus = match self.incoming_calls.remove(&reply_serial) {
            Some(b) => b,
            None => return None,
        };
        let mut msg_for_bus = msg.duplicate();
        let _ = rewrite_message_header(&mut msg_for_bus, RewriteDirection::ToUpstream, source_bus);
        Some(Delivery::ToBus(source_bus, msg_for_bus.raw))
    }

    /// Remember which bus a RequestName went to, so that a later call
    /// addressed to that name can be recognised as an incoming service call.
    fn track_exported_service(&mut self, msg: &Message, decision: RouteDecision)
        requires
            old(self).wf(),
            spec_is_request_name(msg.header) ==> has_body_start(msg.header.endian, msg.raw@),
        ensures
            final(self).wf(),
            strings_view(final(self).exported_services@) == spec_track_name(
                strings_view(old(self).exported_services@),
                *msg,
                decision == RouteDecision::Single(Bus::Host),
            ),
            strings_view(final(self).sandbox_services@) == spec_track_name(
                strings_view(old(self).sandbox_services@),
                *msg,
                decision == RouteDecision::Single(Bus::Sandbox),
            ),
            final(self).config == old(self).config,
            final(self).client_exe_path == old(self).client_exe_path,
            final(self).pending_calls == old(self).pending_calls,
            final(self).pending_merges == old(self).pending_merges,
            final(self).incoming_calls == old(self).incoming_calls,
    {
        if !msg.is_request_name() {
            return;
        }
        let name = match msg.extract_name_from_body() {
            Some(n) => n,
            None => return,
        };
        match decision {
            RouteDecision::Single(Bus::Host) => add_name(&mut self.exported_services, name),
            RouteDecision::Single(Bus::Sandbox) => add_name(&mut self.sandbox_services, name),
            _ => {},
        }
    }

    /// Send a request to one bus, its fake destination made real and its
    /// body rewritten, and remember the call.
    fn forward_to_bus(&mut self, msg: Message, target: Bus) -> (r: Delivery)
        requires
            spec_request_body_reads(spec_upstream_destination(msg.header, msg.raw@, target), opt_view(msg.header.member))
                ==> body_string_readable(
                msg.header.endian,
                spec_rewritten_raw(msg.header, msg.raw@, RewriteDirection::ToUpstream, target),
            ),
        ensures
            r@ == DeliveryView::ToBus(
                target,
                spec_request_body(
                    spec_upstream_destination(msg.header, msg.raw@, target),
                    opt_view(msg.header.member),
                    msg.header.endian,
                    spec_rewritten_raw(msg.header, msg.raw@, RewriteDirection::ToUpstream, target),
                ),
            ),
            final(self).pending_calls@ == old(self).pending_calls@.insert(
                msg.header.serial,
                PendingCallInfo { bus: target, member: msg.header.member },
            ),
            final(self).config == old(self).config,
            final(self).client_exe_path == old(self).client_exe_path,
            final(self).pending_merges == old(self).pending_merges,
            final(self).incoming_calls == old(self).incoming_calls,
            final(self).exported_services == old(self).exported_services,
            final(self).sandbox_services == old(self).sandbox_services,
    {
        let serial = msg.header.serial;
        let member = opt_string_copy(&msg.header.member);
        let mut msg_for_upstream = msg;
        let _ = rewrite_message_header(&mut msg_for_upstream, RewriteDirection::ToUpstream, target);
        let raw = rewrite_request_body(&msg_for_upstream);
        self.pending_calls.insert(serial, PendingCallInfo { bus: target, member });
        Delivery::ToBus(target, raw)
    }

    /// AddMatch/RemoveMatch without a sender: both buses must see it.
    fn forward_to_both(&mut self, msg: Message) -> (r: Delivery)
        requires
            (msg.header.member matches Some(m) && spec_is_match_rule_method(m@)) ==> body_string_readable(
                msg.header.endian,
                msg.raw@,
            ),
        ensures
            r@ == DeliveryView::ToBoth(
                if msg.header.member matches Some(m) && spec_is_match_rule_method(m@) {
                    spec_match_rule_body_or_original(msg.header.endian, msg.raw@)
                } else {
                    msg.raw@
                },
            ),
            final(self).pending_calls@ == old(self).pending_calls@.insert(
                msg.header.serial,
                PendingCallInfo { bus: Bus::Sandbox, member: msg.header.member },
            ),
            final(self).config == old(self).config,
            final(self).client_exe_path == old(self).client_exe_path,
            final(self).pending_merges == old(self).pending_merges,
            final(self).incoming_calls == old(self).incoming_calls,
            final(self).exported_services == old(self).exported_services,
            final(self).sandbox_services == old(self).sandbox_services,
    {
        let raw = match &msg.header.member {
            Some(member) => if is_match_rule_member(member.as_str()) {
                match_rule_body_or_original(&msg)
            } else {
                msg.raw
            },
            None => msg.raw,
        };
        self.pending_calls.insert(
            msg.header.serial,
            PendingCallInfo { bus: Bus::Sandbox, member: msg.header.member },
        );
        Delivery::ToBoth(raw)
    }

    /// ListNames/ListActivatableNames: ask both buses, merge the two replies.
    fn forward_for_merge(&mut self, msg: Message) -> (r: Delivery)
        ensures
            r@ == DeliveryView::ToBoth(msg.raw@),
            merges_view(final(self).pending_merges@) == merges_view(old(self).pending_merges@).insert(
                msg.header.serial,
                (msg.header, msg.raw@, None),
            ),
            final(self).config == old(self).config,
            final(self).client_exe_path == old(self).client_exe_path,
            final(self).pending_calls == old(self).pending_calls,
            final(self).incoming_calls == old(self).incoming_calls,
            final(self).exported_services == old(self).exported_services,
            final(self).sandbox_services == old(self).sandbox_services,
    {
        let request = msg.duplicate();
        let serial = msg.header.serial;
        let ghost pre = old(self).pending_merges@;
        self.pending_merges.insert(serial, PendingMerge { original_request: request, first_response: None });
        assert(merges_view(self.pending_merges@) =~= merges_view(pre).insert(serial, (msg.header, msg.raw@, None)));
        Delivery::ToBoth(msg.raw)
    }

    /// Route one client message to the upstream bus(es) it belongs on.
    pub fn handle_client_message(&mut self, msg: Message) -> (r: Delivery)
        requires
            old(self).wf(),
            spec_client_message_safe(*old(self), msg),
        ensures
            spec_client_step(*old(self), *final(self), msg),
            r@ == spec_client_delivery(*old(self), msg),
    {
        if let Some(d) = self.forward_reply_to_caller(&msg) {
            return d;
        }
        let exe = match &self.client_exe_path {
            Some(p) => Some(p.as_str()),
            None => None,
        };
        let decision = route_request(&self.config, &msg, exe);
        self.track_exported_service(&msg, decision);
        match decision {
            RouteDecision::Single(target) => self.forward_to_bus(msg, target),
            RouteDecision::Both => self.forward_to_both(msg),
            RouteDecision::Merge => self.forward_for_merge(msg),
        }
    }
}

/// A call arriving from a bus, addressed to a name the client owns on that
/// same bus, as opposed to a reply to something the client sent.
pub open spec fn spec_is_service_call(s: SessionState, h: MessageHeader, source: Bus) -> bool {
    &&& h.msg_type == MessageType::MethodCall
    &&& h.destination matches Some(d) && match source {
        Bus::Host => strings_view(s.exported_services@).contains(d@),
        Bus::Sandbox => strings_view(s.sandbox_services@).contains(d@),
    }
}

/// A reply to a call whose replies are being merged.
pub open spec fn spec_is_merge_reply(s: SessionState, h: MessageHeader) -> bool {
    h.reply_serial matches Some(rs) && s.pending_merges@.contains_key(rs)
}

/// The member of the client's call that a reply from `source` answers, when
/// its body carries a unique name to be given the bus prefix: the call was
/// sent to `source` and its member is Hello, GetNameOwner or
/// ListQueuedOwners.
pub open spec fn spec_response_member(calls: Map<u32, PendingCallInfo>, h: MessageHeader, source: Bus) -> Option<Seq<char>> {
    match h.reply_serial {
        Some(rs) => if calls.contains_key(rs) && calls[rs].bus == source && calls[rs].member is Some
            && spec_needs_response_rewrite(calls[rs].member.unwrap()@) {
            Some(calls[rs].member.unwrap()@)
        } else {
            None
        },
        None => None,
    }
}

/// The body of a method return as the client gets it: the unique names in
/// the reply to Hello, GetNameOwner or ListQueuedOwners get the prefix of
/// their bus; anything else, and a rewrite that fails, is unchanged.
pub open spec fn spec_method_return_body(calls: Map<u32, PendingCallInfo>, h: MessageHeader, raw: Seq<u8>, source: Bus) -> Seq<u8> {
    match spec_response_member(calls, h, source) {
        None => raw,
        Some(m) => if m == "ListQueuedOwners"@ {
            match spec_rewrite_string_array_response(h.endian, raw, source) {
                Ok(b) => b,
                Err(_) => raw,
            }
        } else {
            spec_rewrite_single_name_response(h.endian, raw, source)
        },
    }
}

/// The body of a signal as the client gets it: NameOwnerChanged has its
/// unique owners given the prefix of their bus.
pub open spec fn spec_signal_body(h: MessageHeader, raw: Seq<u8>, source: Bus) -> Seq<u8> {
    if h.member matches Some(m) && spec_signal_needs_rewrite(m@) {
        match spec_rewrite_name_owner_changed(h.endian, raw, source) {
            Ok(b) => b,
            Err(_) => raw,
        }
    } else {
        raw
    }
}

/// A message from `source` as the client gets it: its sender given the
/// prefix of the bus, then its body rewritten by its type.
pub open spec fn spec_for_client(calls: Map<u32, PendingCallInfo>, h: MessageHeader, raw: Seq<u8>, source: Bus) -> Seq<u8> {
    let raw1 = spec_rewritten_raw(h, raw, RewriteDirection::ToClient, source);
    if h.msg_type == MessageType::MethodReturn {
        spec_method_return_body(calls, h, raw1, source)
    } else if h.msg_type == MessageType::Signal {
        spec_signal_body(h, raw1, source)
    } else {
        raw1
    }
}

/// The host's and the sandbox's names, given the first reply of a merge
/// and the names of the second.
pub open spec fn spec_merge_sides(first_bus: Bus, first: Seq<Seq<char>>, second: Seq<Seq<char>>) -> (Seq<Seq<char>>, Seq<Seq<char>>) {
    if first_bus == Bus::Host {
        (first, second)
    } else {
        (second, first)
    }
}

/// The reply the client gets once both replies of a merge are in: one
/// method return to its request with the merged names; the second reply's
/// bytes if that cannot be encoded.
pub open spec fn spec_merged_reply(request: MessageHeader, first_bus: Bus, first: Seq<Seq<char>>, second: Seq<Seq<char>>, raw: Seq<u8>) -> Seq<u8> {
    let (host, sandbox) = spec_merge_sides(first_bus, first, second);
    match spec_build_list_names_response(request.endian, request.serial, spec_merge_list_names(host, sandbox)) {
        Ok(b) => b,
        Err(_) => raw,
    }
}

/// What the client gets for a reply of a pending merge: nothing for the
/// first, the merged reply for the second.
pub open spec fn spec_merge_delivery(s: SessionState, msg: Message, source: Bus) -> DeliveryView {
    let (request, _, first) = merge_view(s.pending_merges@[msg.header.reply_serial.unwrap()]);
    match first {
        None => DeliveryView::Held,
        Some((first_bus, first_names)) => DeliveryView::ToClientWithoutFds(
            spec_merged_reply(request, first_bus, first_names, spec_parse_string_array(msg.header.endian, msg.raw@), msg.raw@),
        ),
    }
}

/// The message from a bus is one on which no step of its handling reads
/// past its bytes.
pub open spec fn spec_upstream_message_safe(s: SessionState, msg: Message, source: Bus) -> bool {
    let h = msg.header;
    let raw = msg.raw@;
    if spec_is_service_call(s, h, source) {
        true
    } else if spec_is_merge_reply(s, h) {
        has_body_start(h.endian, raw)
    } else {
        let raw1 = spec_rewritten_raw(h, raw, RewriteDirection::ToClient, source);
        &&& h.msg_type == MessageType::MethodReturn ==> match spec_response_member(s.pending_calls@, h, source) {
            Some(m) => if m == "ListQueuedOwners"@ {
                has_body_start(h.endian, raw1)
            } else {
                body_string_readable(h.endian, raw1)
            },
            None => true,
        }
        &&& (h.msg_type == MessageType::Signal && (h.member matches Some(m) && spec_signal_needs_rewrite(m@)))
            ==> has_body_start(h.endian, raw1)
    }
}

/// What the session sends for a message from `source`. A call into one of
/// the client's services goes to the client (from the sandbox bus with the
/// sender given its fake name). The first reply of a merge is held; the
/// second yields the merged reply. Anything else goes to the client with
/// its sender and body rewritten.
pub open spec fn spec_upstream_delivery(s: SessionState, msg: Message, source: Bus) -> DeliveryView {
    let h = msg.header;
    let raw = msg.raw@;
    if spec_is_service_call(s, h, source) {
        DeliveryView::ToClient(
            if source == Bus::Sandbox {
                spec_rewritten_raw(h, raw, RewriteDirection::ToClient, source)
            } else {
                raw
            },
        )
    } else if spec_is_merge_reply(s, h) {
        spec_merge_delivery(s, msg, source)
    } else {
        DeliveryView::ToClient(spec_for_client(s.pending_calls@, h, raw, source))
    }
}

/// How a message from `source` changes the session. A call into one of the
/// client's services is remembered with its bus, so that the client's reply
/// goes back there. The first reply of a merge is stored with its bus; the
/// second ends the merge. Nothing else changes.
pub open spec fn spec_upstream_step(pre: SessionState, post: SessionState, msg: Message, source: Bus) -> bool {
    let h = msg.header;
    &&& post.config == pre.config
    &&& post.client_exe_path == pre.client_exe_path
    &&& post.pending_calls@ == pre.pending_calls@
    &&& post.exported_services@ == pre.exported_services@
    &&& post.sandbox_services@ == pre.sandbox_services@
    &&& if spec_is_service_call(pre, h, source) {
        &&& post.incoming_calls@ == pre.incoming_calls@.insert(h.serial, source)
        &&& post.pending_merges@ == pre.pending_merges@
    } else if spec_is_merge_reply(pre, h) {
        let rs = h.reply_serial.unwrap();
        let (request, request_raw, first) = merge_view(pre.pending_merges@[rs]);
        &&& post.incoming_calls@ == pre.incoming_calls@
        &&& match first {
            None => merges_view(post.pending_merges@) == merges_view(pre.pending_merges@).insert(
                rs,
                (request, request_raw, Some((source, spec_parse_string_array(h.endian, msg.raw@)))),
            ),
            Some(_) => post.pending_merges@ == pre.pending_merges@.remove(rs),
        }
    } else {
        &&& post.incoming_calls@ == pre.incoming_calls@
        &&& post.pending_merges@ == pre.pending_merges@
    }
}

/// Rewrite a method return body if it carries unique names to be given the
/// prefix of their bus.
fn rewrite_method_return_body(calls: &HashMap<u32, PendingCallInfo>, msg: &Message, source: Bus) -> (r: Vec<u8>)
    requires
        match spec_response_member(calls@, msg.header, source) {
            Some(m) => if m == "ListQueuedOwners"@ {
                has_body_start(msg.header.endian, msg.raw@)
            } else {
                body_string_readable(msg.header.endian, msg.raw@)
            },
            None => true,
        },
    ensures
        r@ == spec_method_return_body(calls@, msg.header, msg.raw@, source),
{
    let reply_serial = match msg.header.reply_serial {
        Some(rs) => rs,
        None => return copy_raw(msg),
    };
    let info = match calls.get(&reply_serial) {
        Some(i) => i,
        None => return copy_raw(msg),
    };
    if info.bus != source {
        return copy_raw(msg);
    }
    let member = match &info.member {
        Some(m) => m.as_str(),
        None => return copy_raw(msg),
    };
    if !needs_response_rewrite(member) {
        return copy_raw(msg);
    }
    let result = if str_eq(member, "ListQueuedOwners") {
        rewrite_string_array_response(msg, source)
    } else {
        rewrite_single_name_response(msg, source)
    };
    match result {
        Ok(rewritten) => rewritten,
        Err(_) => copy_raw(msg),
    }
}

/// Rewrite a signal body if it carries unique names to be given the prefix
/// of their bus.
fn rewrite_signal_body(msg: &Message, source: Bus) -> (r: Vec<u8>)
    requires
        (msg.header.member matches Some(m) && spec_signal_needs_rewrite(m@)) ==> has_body_start(msg.header.endian, msg.raw@),
    ensures
        r@ == spec_signal_body(msg.header, msg.raw@, source),
{
    let member = match &msg.header.member {
        Some(m) => m.as_str(),
        None => return copy_raw(msg),
    };
    if !signal_needs_rewrite(member) {
        return copy_raw(msg);
    }
    match rewrite_name_owner_changed(msg, source) {
        Ok(rewritten) => rewritten,
        Err(_) => copy_raw(msg),
    }
}

/// Prepare a message from an upstream bus for the client: its sender gets
/// the prefix of the bus, then its body is rewritten by message type.
fn prepare_message_for_client(calls: &HashMap<u32, PendingCallInfo>, msg: Message, source: Bus) -> (r: Vec<u8>)
    requires
        msg.header.msg_type == MessageType::MethodReturn ==> match spec_response_member(calls@, msg.header, source) {
            Some(m) => if m == "ListQueuedOwners"@ {
                has_body_start(msg.header.endian, spec_rewritten_raw(msg.header, msg.raw@, RewriteDirection::ToClient, source))
            } else {
                body_string_readable(msg.header.endian, spec_rewritten_raw(msg.header, msg.raw@, RewriteDirection::ToClient, source))
            },
            None => true,
        },
        (msg.header.msg_type == MessageType::Signal && (msg.header.member matches Some(m) && spec_signal_needs_rewrite(m@)))
            ==> has_body_start(msg.header.endian, spec_rewritten_raw(msg.header, msg.raw@, RewriteDirection::ToClient, source)),
    ensures
        r@ == spec_for_client(calls@, msg.header, msg.raw@, source),
{
    let mut msg_for_client = msg;
    let _ = rewrite_message_header(&mut msg_for_client, RewriteDirection::ToClient, source);
    match msg_for_client.header.msg_type {
        MessageType::MethodReturn => rewrite_method_return_body(calls, &msg_for_client, source),
        MessageType::Signal => rewrite_signal_body(&msg_for_client, source),
        _ => msg_for_client.raw,
    }
}

impl SessionState {
    /// A call from `source` addressed to a name the client owns on it.
    pub fn is_incoming_service_call(&self, msg: &Message, source: Bus) -> (r: bool)
        ensures
            r == spec_is_service_call(*self, msg.header, source),
    {
        if msg.header.msg_type != MessageType::MethodCall {
            return false;
        }
        let dest = match &msg.header.destination {
            Some(d) => d.as_str(),
            None => return false,
        };
        match source {
            Bus::Host => contains_name(&self.exported_services, dest),
            Bus::Sandbox => contains_name(&self.sandbox_services, dest),
        }
    }

    /// Handle a reply that belongs to a pending merge: the first is stored,
    /// the second yields the merged reply. `None` when the message is no
    /// reply of a pending merge.
    fn process_merge_response(&mut self, msg: &Message, source: Bus) -> (r: Option<Delivery>)
        requires
            spec_is_merge_reply(*old(self), msg.header) ==> has_body_start(msg.header.endian, msg.raw@),
        ensures
            !spec_is_merge_reply(*old(self), msg.header) ==> r is None && *final(self) == *old(self),
            spec_is_merge_reply(*old(self), msg.header) ==> {
                let rs = msg.header.reply_serial.unwrap();
                let (request, request_raw, first) = merge_view(old(self).pending_merges@[rs]);
                &&& r matches Some(d) && d@ == spec_merge_delivery(*old(self), *msg, source)
                &&& match first {
                    None => merges_view(final(self).pending_merges@) == merges_view(old(self).pending_merges@).insert(
                        rs,
                        (request, request_raw, Some((source, spec_parse_string_array(msg.header.endian, msg.raw@)))),
                    ),
                    Some(_) => final(self).pending_merges@ == old(self).pending_merges@.remove(rs),
                }
                &&& final(self).config == old(self).config
                &&& final(self).client_exe_path == old(self).client_exe_path
                &&& final(self).pending_calls == old(self).pending_calls
                &&& final(self).incoming_calls == old(self).incoming_calls
                &&& final(self).exported_services == old(self).exported_services
                &&& final(self).sandbox_services == old(self).sandbox_services
            },
    {
        let reply_serial = match msg.header.reply_serial {
            Some(rs) => rs,
            None => return None,
        };
        if !self.pending_merges.contains_key(&reply_serial) {
            return None;
        }
        let names = match parse_string_array(msg) {
            Ok(v) => v,
            Err(_) => Vec::new(),
        };
        let ghost pre = self.pending_merges@;
        let pending = match self.pending_merges.remove(&reply_serial) {
            Some(p) => p,
            None => return None,
        };
        let PendingMerge { original_request, first_response } = pending;
        match first_response {
            None => {
                let ghost names_view = strings_view(names@);
                self.pending_merges.insert(
                    reply_serial,
                    PendingMerge { original_request, first_response: Some((source, names)) },
                );
                assert(merges_view(self.pending_merges@) =~= merges_view(pre).insert(
                    reply_serial,
                    (pre[reply_serial].original_request.header, pre[reply_serial].original_request.raw@, Some((source, names_view))),
                ));
                Some(Delivery::Held)
            },
            Some((first_bus, first_names)) => {
                let (host_names, sandbox_names) = if first_bus == Bus::Host {
                    (first_names, names)
                } else {
                    (names, first_names)
                };
                let merged = merge_list_names(host_names, sandbox_names);
                let response = match build_list_names_response(&original_request, merged) {
                    Ok(b) => b,
                    Err(_) => copy_raw(msg),
                };
                Some(Delivery::ToClientWithoutFds(response))
            },
        }
    }

    /// Handle a message from an upstream bus: what goes to the client, and
    /// what the session remembers of it.
    pub fn handle_upstream_message(&mut self, msg: Message, source: Bus) -> (r: Delivery)
        requires
            spec_upstream_message_safe(*old(self), msg, source),
        ensures
            spec_upstream_step(*old(self), *final(self), msg, source),
            r@ == spec_upstream_delivery(*old(self), msg, source),
    {
        if self.is_incoming_service_call(&msg, source) {
            self.incoming_calls.insert(msg.header.serial, source);
            let mut msg_for_client = msg;
            // Only sandbox peers are presented to the client under a fake
            // unique name, so only they need their sender translated.
            if source == Bus::Sandbox {
                let _ = rewrite_message_header(&mut msg_for_client, RewriteDirection::ToClient, source);
            }
            return Delivery::ToClient(msg_for_client.raw);
        }
        if let Some(d) = self.process_merge_response(&msg, source) {
            return d;
        }
        let raw = prepare_message_for_client(&self.pending_calls, msg, source);
        Delivery::ToClient(raw)
    }
}

/// `msg` with its header rewritten in `direction`, as the steps rewrite it.
fn rewritten_copy(msg: &Message, direction: RewriteDirection, bus: Bus) -> (r: Message)
    ensures
        r.raw@ == spec_rewritten_raw(msg.header, msg.raw@, direction, bus),
        r.header.endian == msg.header.endian,
        r.header.member == msg.header.member,
        direction == RewriteDirection::ToUpstream ==> opt_view(r.header.destination) == spec_upstream_destination(
            msg.header,
            msg.raw@,
            bus,
        ),
{
    let mut m = msg.duplicate();
    let _ = rewrite_message_header(&mut m, direction, bus);
    m
}

/// Whether the request's body is read by a rewrite on its way to a bus.
fn request_body_reads(h: &MessageHeader) -> (r: bool)
    ensures
        r == spec_request_body_reads(opt_view(h.destination), opt_view(h.member)),
{
    if !opt_str_is(&h.destination, "org.freedesktop.DBus") {
        return false;
    }
    match &h.member {
        Some(m) => needs_request_rewrite(m.as_str()) || is_match_rule_member(m.as_str()),
        None => false,
    }
}

/// Whether a reply from `source` has its body rewritten, and if so whether
/// it answers ListQueuedOwners.
fn response_rewrite_kind(calls: &HashMap<u32, PendingCallInfo>, h: &MessageHeader, source: Bus) -> (r: Option<bool>)
    ensures
        match spec_response_member(calls@, *h, source) {
            None => r is None,
            Some(m) => r == Some(m == "ListQueuedOwners"@),
        },
{
    let reply_serial = match h.reply_serial {
        Some(rs) => rs,
        None => return None,
    };
    let info = match calls.get(&reply_serial) {
        Some(i) => i,
        None => return None,
    };
    if info.bus != source {
        return None;
    }
    match &info.member {
        Some(m) => if needs_response_rewrite(m.as_str()) {
            Some(str_eq(m.as_str(), "ListQueuedOwners"))
        } else {
            None
        },
        None => None,
    }
}

impl SessionState {
    /// Whether handling `msg` from the client reads only bytes of it, so
    /// that [`SessionState::handle_client_message`] may be called.
    pub fn accepts_client_message(&self, msg: &Message) -> (r: bool)
        ensures
            r == spec_client_message_safe(*self, *msg),
    {
        let h = &msg.header;
        if h.msg_type == MessageType::MethodReturn || h.msg_type == MessageType::Error {
            if let Some(rs) = h.reply_serial {
                if self.incoming_calls.contains_key(&rs) {
                    return true;
                }
            }
        }
        if ((routes_by_body(h) && !self.is_hostpass()) || msg.is_request_name()) && !body_start_fits(msg.raw.as_slice(), h.endian) {
            return false;
        }
        let exe = match &self.client_exe_path {
            Some(p) => Some(p.as_str()),
            None => None,
        };
        match route_request(&self.config, msg, exe) {
            RouteDecision::Single(t) => {
                let up = rewritten_copy(msg, RewriteDirection::ToUpstream, t);
                !request_body_reads(&up.header) || is_body_string_readable(up.raw.as_slice(), h.endian)
            },
            RouteDecision::Both => match &h.member {
                Some(m) => !is_match_rule_member(m.as_str()) || is_body_string_readable(
                    msg.raw.as_slice(),
                    h.endian,
                ),
                None => true,
            },
            RouteDecision::Merge => true,
        }
    }

    /// Whether handling `msg` from `source` reads only bytes of it, so that
    /// [`SessionState::handle_upstream_message`] may be called.
    pub fn accepts_upstream_message(&self, msg: &Message, source: Bus) -> (r: bool)
        ensures
            r == spec_upstream_message_safe(*self, *msg, source),
    {
        let h = &msg.header;
        if self.is_incoming_service_call(msg, source) {
            return true;
        }
        if let Some(rs) = h.reply_serial {
            if self.pending_merges.contains_key(&rs) {
                return body_start_fits(msg.raw.as_slice(), h.endian);
            }
        }
        let m = rewritten_copy(msg, RewriteDirection::ToClient, source);
        let raw1 = m.raw.as_slice();
        if h.msg_type == MessageType::MethodReturn {
            match response_rewrite_kind(&self.pending_calls, h, source) {
                Some(true) => if !body_start_fits(raw1, h.endian) {
                    return false;
                },
                Some(false) => if !is_body_string_readable(raw1, h.endian) {
                    return false;
                },
                None => {},
            }
        }
        if h.msg_type == MessageType::Signal {
            if let Some(member) = &h.member {
                if signal_needs_rewrite(member.as_str()) {
                    return body_start_fits(raw1, h.endian);
                }
            }
        }
        true
    }
}

/// A reply of the client to a call that came into one of its services from
/// a bus goes back to that bus, with its destination made real.
pub proof fn law_reply_returns_to_caller(
    pre: SessionState,
    mid: SessionState,
    call: Message,
    source: Bus,
    reply: Message,
)
    requires
        spec_is_service_call(pre, call.header, source),
        spec_upstream_step(pre, mid, call, source),
        reply.header.msg_type == MessageType::MethodReturn || reply.header.msg_type == MessageType::Error,
        reply.header.reply_serial == Some(call.header.serial),
    ensures
        spec_answers_incoming(mid.incoming_calls@, reply.header),
        spec_client_delivery(mid, reply) == DeliveryView::ToBus(
            source,
            spec_rewritten_raw(reply.header, reply.raw@, RewriteDirection::ToUpstream, source),
        ),
{
}

/// Every request of a hostpass client goes to the host bus.
pub proof fn law_hostpass_client_uses_host(s: SessionState, msg: Message)
    requires
        s.client_exe_path matches Some(p) && spec_has_hostpass(s.config@, p@),
        !spec_answers_incoming(s.incoming_calls@, msg.header),
    ensures
        spec_client_delivery(s, msg) matches DeliveryView::ToBus(b, _) && b == Bus::Host,
{
    law_hostpass_routes_to_host(s.config@, msg.header, msg.raw@, s.client_exe_path.unwrap()@);
}

/// Messages from a bus only ever go to the client (or are held while a
/// merge waits for its second reply).
pub proof fn law_upstream_goes_to_client(s: SessionState, msg: Message, source: Bus)
    ensures
        !(spec_upstream_delivery(s, msg, source) is ToBus),
        !(spec_upstream_delivery(s, msg, source) is ToBoth),
{
}

/// A `ListNames` or `ListActivatableNames` call goes to both buses as it
/// is; the first reply is held, and the second answers the call with the
/// names of both buses merged, which ends the merge.
pub proof fn law_list_names_merged(
    s0: SessionState,
    s1: SessionState,
    s2: SessionState,
    s3: SessionState,
    request: Message,
    first: Message,
    first_bus: Bus,
    second: Message,
    second_bus: Bus,
)
    requires
        !spec_answers_incoming(s0.incoming_calls@, request.header),
        spec_client_route(s0, request) == RouteDecision::Merge,
        spec_client_step(s0, s1, request),
        first.header.msg_type != MessageType::MethodCall,
        first.header.reply_serial == Some(request.header.serial),
        spec_upstream_step(s1, s2, first, first_bus),
        second.header.msg_type != MessageType::MethodCall,
        second.header.reply_serial == Some(request.header.serial),
        spec_upstream_step(s2, s3, second, second_bus),
    ensures
        spec_client_delivery(s0, request) == DeliveryView::ToBoth(request.raw@),
        spec_upstream_delivery(s1, first, first_bus) == DeliveryView::Held,
        spec_upstream_delivery(s2, second, second_bus) == DeliveryView::ToClientWithoutFds(
            spec_merged_reply(
                request.header,
                first_bus,
                spec_parse_string_array(first.header.endian, first.raw@),
                spec_parse_string_array(second.header.endian, second.raw@),
                second.raw@,
            ),
        ),
        !s3.pending_merges@.contains_key(request.header.serial),
{
    let k = request.header.serial;
    assert(merges_view(s1.pending_merges@).contains_key(k));
    assert(s1.pending_merges@.contains_key(k));
    assert(merges_view(s1.pending_merges@)[k] == merge_view(s1.pending_merges@[k]));
    assert(merge_view(s1.pending_merges@[k]) == (request.header, request.raw@, None::<(Bus, Seq<Seq<char>>)>));
    assert(spec_is_merge_reply(s1, first.header));
    assert(merges_view(s2.pending_merges@).contains_key(k));
    assert(s2.pending_merges@.contains_key(k));
    assert(merges_view(s2.pending_merges@)[k] == merge_view(s2.pending_merges@[k]));
    assert(spec_is_merge_reply(s2, second.header));
}

/// The reply to a client's `Hello` or `GetNameOwner`, from the bus the call
/// went to, reaches the client with its sender and the unique name in its
/// body given that bus's prefix.
pub proof fn law_name_reply_gets_prefix(
    s0: SessionState,
    s1: SessionState,
    call: Message,
    bus: Bus,
    reply: Message,
)
    requires
        !spec_answers_incoming(s0.incoming_calls@, call.header),
        spec_client_route(s0, call) == RouteDecision::Single(bus),
        spec_client_step(s0, s1, call),
        call.header.member matches Some(m) && (m@ == "Hello"@ || m@ == "GetNameOwner"@),
        reply.header.msg_type == MessageType::MethodReturn,
        reply.header.reply_serial == Some(call.header.serial),
        !spec_is_merge_reply(s1, reply.header),
    ensures
        spec_upstream_delivery(s1, reply, bus) == DeliveryView::ToClient(
            spec_rewrite_single_name_response(
                reply.header.endian,
                spec_rewritten_raw(reply.header, reply.raw@, RewriteDirection::ToClient, bus),
                bus,
            ),
        ),
{
    let k = call.header.serial;
    assert(s1.pending_calls@.contains_key(k));
    assert(s1.pending_calls@[k].bus == bus);
    assert(s1.pending_calls@[k].member == call.header.member);
    assert(spec_response_member(s1.pending_calls@, reply.header, bus) == Some(call.header.member.unwrap()@));
    reveal_strlit("Hello");
    reveal_strlit("GetNameOwner");
    reveal_strlit("ListQueuedOwners");
    assert("Hello"@.len() == 5 && "GetNameOwner"@.len() == 12 && "ListQueuedOwners"@.len() == 16);
}

/// The merged `ListNames` reply does not depend on which bus answers
/// first: the names the host bus reported are taken as the host's and
/// those the sandbox bus reported as the sandbox's, so each unique name
/// gets the prefix of the bus that reported it (see `law_merge_list_names`).
pub proof fn law_merge_independent_of_reply_order(
    request: MessageHeader,
    host_names: Seq<Seq<char>>,
    sandbox_names: Seq<Seq<char>>,
    raw: Seq<u8>,
)
    ensures
        spec_merged_reply(request, Bus::Host, host_names, sandbox_names, raw) == spec_merged_reply(
            request,
            Bus::Sandbox,
            sandbox_names,
            host_names,
            raw,
        ),
        spec_merged_reply(request, Bus::Host, host_names, sandbox_names, raw) == match spec_build_list_names_response(
            request.endian,
            request.serial,
            spec_merge_list_names(host_names, sandbox_names),
        ) {
            Ok(b) => b,
            Err(_) => raw,
        },
{
}

/// The reply to a client's `ListQueuedOwners`, from the bus the call went
/// to, reaches the client with its sender given that bus's prefix and
/// every unique name of its string array given that bus's prefix.
pub proof fn law_queued_owners_reply_gets_prefix(
    s0: SessionState,
    s1: SessionState,
    call: Message,
    bus: Bus,
    reply: Message,
)
    requires
        !spec_answers_incoming(s0.incoming_calls@, call.header),
        spec_client_route(s0, call) == RouteDecision::Single(bus),
        spec_client_step(s0, s1, call),
        call.header.member matches Some(m) && m@ == "ListQueuedOwners"@,
        reply.header.msg_type == MessageType::MethodReturn,
        reply.header.reply_serial == Some(call.header.serial),
        !spec_is_merge_reply(s1, reply.header),
    ensures
        spec_rewrite_string_array_response(
            reply.header.endian,
            spec_rewritten_raw(reply.header, reply.raw@, RewriteDirection::ToClient, bus),
            bus,
        ) matches Ok(b) ==> spec_upstream_delivery(s1, reply, bus) == DeliveryView::ToClient(b),
{
    let k = call.header.serial;
    assert(s1.pending_calls@.contains_key(k));
    assert(s1.pending_calls@[k].bus == bus);
    assert(s1.pending_calls@[k].member == call.header.member);
    reveal_strlit("Hello");
    reveal_strlit("GetNameOwner");
    reveal_strlit("ListQueuedOwners");
    assert("Hello"@.len() == 5 && "GetNameOwner"@.len() == 12 && "ListQueuedOwners"@.len() == 16);
    assert(spec_response_member(s1.pending_calls@, reply.header, bus) == Some(call.header.member.unwrap()@));
}

} // verus!
