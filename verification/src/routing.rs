//! Routing decisions for client requests.

use vstd::prelude::*;
use crate::bus::Bus;
use crate::config::{spec_has_hostpass, spec_should_route_to_host, Config, ConfigView};
use crate::daemon::{needs_merge, needs_request_rewrite, spec_needs_merge, spec_needs_request_rewrite};
use crate::fake_name::{get_bus_from_fake_name, spec_bus_of_fake_name, spec_prefix};
use crate::message::{has_body_start, spec_body_string, Message, MessageHeader};
use crate::rewrite::{parse_match_rule_sender, spec_match_rule_sender};
use crate::text::{has_prefix, opt_str_is, opt_view, spec_opt_is, str_eq};

verus! {

/// Routing decision result.
#[derive(Debug, Clone, Copy, PartialEq, Eq, Structural)]
pub enum RouteDecision {
    /// Route to a single bus.
    Single(Bus),
    /// Route to both buses (for AddMatch without sender).
    Both,
    /// Route to both buses and merge results (for ListNames).
    Merge,
}

/// A call on the bus daemon itself: destination and interface are both
/// `org.freedesktop.DBus`.
pub open spec fn spec_is_daemon_call(h: MessageHeader) -> bool {
    spec_opt_is(h.destination, "org.freedesktop.DBus"@) && spec_opt_is(h.interface, "org.freedesktop.DBus"@)
}

/// Bus daemon methods whose first argument is a match rule.
pub open spec fn spec_is_match_rule_method(member: Seq<char>) -> bool {
    member == "AddMatch"@ || member == "RemoveMatch"@
}

/// Bus daemon methods whose first argument is a bus name that decides where
/// the call goes.
pub open spec fn spec_is_name_method(member: Seq<char>) -> bool {
    ||| member == "RequestName"@
    ||| member == "ReleaseName"@
    ||| member == "StartServiceByName"@
    ||| member == "GetNameOwner"@
    ||| member == "ListQueuedOwners"@
}

/// The routing of a bus daemon method reads its first body argument.
pub open spec fn spec_routes_by_body(h: MessageHeader) -> bool {
    spec_is_daemon_call(h) && match h.member {
        Some(m) => !spec_needs_merge(m@) && (spec_is_match_rule_method(m@) || spec_needs_request_rewrite(m@)
            || spec_is_name_method(m@)),
        None => false,
    }
}

/// The bus a bus name belongs to: the bus of its fake prefix, else the host
/// bus when a host route matches it, else the sandbox bus.
pub open spec fn spec_bus_for_name(config: ConfigView, name: Seq<char>) -> Bus {
    match spec_bus_of_fake_name(name) {
        Some(bus) => bus,
        None => if spec_should_route_to_host(config, name) {
            Bus::Host
        } else {
            Bus::Sandbox
        },
    }
}

/// Where a call on the bus daemon goes. `ListNames` and
/// `ListActivatableNames` ask both buses and merge. A match rule with a
/// sender goes to the bus of that sender, one without a sender to both
/// buses. Calls whose argument is a bus name go to the bus of that name.
/// Everything else (Hello, GetId, ...) goes to the sandbox bus.
pub open spec fn spec_route_dbus_method(config: ConfigView, h: MessageHeader, raw: Seq<u8>) -> RouteDecision {
    match h.member {
        None => RouteDecision::Single(Bus::Sandbox),
        Some(m) => if spec_needs_merge(m@) {
            RouteDecision::Merge
        } else if spec_is_match_rule_method(m@) {
            match spec_body_string(h.endian, raw) {
                Some(rule) => match spec_match_rule_sender(rule) {
                    Some(sender) => RouteDecision::Single(spec_bus_for_name(config, sender)),
                    None => RouteDecision::Both,
                },
                None => RouteDecision::Both,
            }
        } else if spec_needs_request_rewrite(m@) || spec_is_name_method(m@) {
            match spec_body_string(h.endian, raw) {
                Some(name) => RouteDecision::Single(spec_bus_for_name(config, name)),
                None => RouteDecision::Single(Bus::Sandbox),
            }
        } else {
            RouteDecision::Single(Bus::Sandbox)
        },
    }
}

/// Where a client request goes. A hostpass client has everything sent to
/// the host bus. A fake unique destination names its bus. Calls on the bus
/// daemon are routed by method. Other destinations go to the host bus when
/// a host route matches them, and everything else to the sandbox bus.
pub open spec fn spec_route_request(
    config: ConfigView,
    h: MessageHeader,
    raw: Seq<u8>,
    client_exe: Option<Seq<char>>,
) -> RouteDecision {
    if client_exe matches Some(exe) && spec_has_hostpass(config, exe) {
        RouteDecision::Single(Bus::Host)
    } else if h.destination matches Some(d) && spec_bus_of_fake_name(d@) is Some {
        RouteDecision::Single(spec_bus_of_fake_name(h.destination.unwrap()@).unwrap())
    } else if spec_is_daemon_call(h) {
        spec_route_dbus_method(config, h, raw)
    } else if h.destination matches Some(d) && spec_should_route_to_host(config, d@) {
        RouteDecision::Single(Bus::Host)
    } else {
        RouteDecision::Single(Bus::Sandbox)
    }
}

fn bus_for_name(config: &Config, name: &str) -> (r: Bus)
    ensures
        r == spec_bus_for_name(config@, name@),
{
    match get_bus_from_fake_name(name) {
        Some(bus) => bus,
        None => if config.should_route_to_host(name) {
            Bus::Host
        } else {
            Bus::Sandbox
        },
    }
}

fn is_name_method(member: &str) -> (r: bool)
    ensures
        r == spec_is_name_method(member@),
{
    str_eq(member, "RequestName") || str_eq(member, "ReleaseName") || str_eq(member, "StartServiceByName")
        || str_eq(member, "GetNameOwner") || str_eq(member, "ListQueuedOwners")
}

/// Whether routing the call reads its first body argument.
pub fn routes_by_body(h: &MessageHeader) -> (r: bool)
    ensures
        r == spec_routes_by_body(*h),
{
    if !(opt_str_is(&h.destination, "org.freedesktop.DBus") && opt_str_is(&h.interface, "org.freedesktop.DBus")) {
        return false;
    }
    match &h.member {
        Some(m) => {
            let m = m.as_str();
            !needs_merge(m) && (str_eq(m, "AddMatch") || str_eq(m, "RemoveMatch") || needs_request_rewrite(m)
                || is_name_method(m))
        },
        None => false,
    }
}

/// Route a call on the bus daemon by its method.
pub fn route_dbus_method(config: &Config, msg: &Message) -> (r: RouteDecision)
    requires
        spec_routes_by_body(msg.header) ==> has_body_start(msg.header.endian, msg.raw@),
        spec_is_daemon_call(msg.header),
    ensures
        r == spec_route_dbus_method(config@, msg.header, msg.raw@),
{
    let member = match &msg.header.member {
        Some(m) => m.as_str(),
        None => return RouteDecision::Single(Bus::Sandbox),
    };
    if needs_merge(member) {
        return RouteDecision::Merge;
    }
    if str_eq(member, "AddMatch") || str_eq(member, "RemoveMatch") {
        return match msg.extract_string_from_body() {
            Some(rule) => match parse_match_rule_sender(rule.as_str()) {
                Some(sender) => RouteDecision::Single(bus_for_name(config, sender.as_str())),
                None => RouteDecision::Both,
            },
            None => RouteDecision::Both,
        };
    }
    if needs_request_rewrite(member) || is_name_method(member) {
        return match msg.extract_string_from_body() {
            Some(name) => RouteDecision::Single(bus_for_name(config, name.as_str())),
            None => RouteDecision::Single(Bus::Sandbox),
        };
    }
    RouteDecision::Single(Bus::Sandbox)
}

/// Determine which bus to route a request to based on destination.
pub fn route_request(config: &Config, msg: &Message, client_exe: Option<&str>) -> (r: RouteDecision)
    requires
        !(client_exe matches Some(e) && spec_has_hostpass(config@, e@)) && spec_routes_by_body(msg.header)
            ==> has_body_start(msg.header.endian, msg.raw@),
    ensures
        r == spec_route_request(
            config@,
            msg.header,
            msg.raw@,
            match client_exe {
                Some(e) => Some(e@),
                None => None,
            },
        ),
{
    // Hostpass: route ALL messages from hostpass processes to host bus.
    // D-Bus requires Hello() before any other operation, and the host bus
    // does not accept messages from connections that have not called it.
    if let Some(exe) = client_exe {
        if config.has_hostpass(exe) {
            return RouteDecision::Single(Bus::Host);
        }
    }

    // A fake unique destination (e.g. `:h.1.45`) names its bus.
    if let Some(dest) = &msg.header.destination {
        if let Some(bus) = get_bus_from_fake_name(dest.as_str()) {
            return RouteDecision::Single(bus);
        }
    }

    // Special handling for org.freedesktop.DBus methods.
    if opt_str_is(&msg.header.destination, "org.freedesktop.DBus") && opt_str_is(
        &msg.header.interface,
        "org.freedesktop.DBus",
    ) {
        return route_dbus_method(config, msg);
    }

    // Method calls and signals with a destination are routed based on config.
    if let Some(dest) = &msg.header.destination {
        if config.should_route_to_host(dest.as_str()) {
            return RouteDecision::Single(Bus::Host);
        }
    }

    // Default: route to sandbox bus.
    RouteDecision::Single(Bus::Sandbox)
}

/// Every request of a hostpass client goes to the host bus.
pub proof fn law_hostpass_routes_to_host(config: ConfigView, h: MessageHeader, raw: Seq<u8>, exe: Seq<char>)
    requires
        spec_has_hostpass(config, exe),
    ensures
        spec_route_request(config, h, raw, Some(exe)) == RouteDecision::Single(Bus::Host),
{
}

/// For other clients, a request addressed to a fake unique name goes to
/// the bus that name belongs to.
pub proof fn law_fake_destination_routes_to_its_bus(
    config: ConfigView,
    h: MessageHeader,
    raw: Seq<u8>,
    client_exe: Option<Seq<char>>,
    dest: Seq<char>,
    bus: Bus,
)
    requires
        !(client_exe matches Some(exe) && spec_has_hostpass(config, exe)),
        opt_view(h.destination) == Some(dest),
        spec_bus_of_fake_name(dest) == Some(bus),
    ensures
        spec_route_request(config, h, raw, client_exe) == RouteDecision::Single(bus),
{
}

/// For other clients, a request to a name no host route matches, that is
/// neither a fake unique name nor the bus daemon, goes to the sandbox bus;
/// one that a host route matches goes to the host bus.
pub proof fn law_destination_routing(
    config: ConfigView,
    h: MessageHeader,
    raw: Seq<u8>,
    client_exe: Option<Seq<char>>,
    dest: Seq<char>,
)
    requires
        !(client_exe matches Some(exe) && spec_has_hostpass(config, exe)),
        opt_view(h.destination) == Some(dest),
        spec_bus_of_fake_name(dest) is None,
        !spec_is_daemon_call(h),
    ensures
        spec_route_request(config, h, raw, client_exe) == RouteDecision::Single(
            if spec_should_route_to_host(config, dest) { Bus::Host } else { Bus::Sandbox },
        ),
{
}

/// The destination of a call on the bus daemon is no fake unique name.
proof fn lemma_daemon_is_not_fake()
    ensures
        spec_bus_of_fake_name("org.freedesktop.DBus"@) is None,
{
    reveal_strlit("org.freedesktop.DBus");
    reveal_strlit(":h.");
    reveal_strlit(":s.");
    assert("org.freedesktop.DBus"@[0] == 'o');
    assert(!has_prefix("org.freedesktop.DBus"@, spec_prefix(Bus::Host)));
    assert(!has_prefix("org.freedesktop.DBus"@, spec_prefix(Bus::Sandbox)));
}

/// Methods with a bus name argument neither merge nor take a match rule.
proof fn lemma_name_methods_distinct(member: Seq<char>)
    requires
        spec_needs_request_rewrite(member) || spec_is_name_method(member),
    ensures
        !spec_needs_merge(member),
        !spec_is_match_rule_method(member),
{
    reveal_strlit("ListNames");
    reveal_strlit("ListActivatableNames");
    reveal_strlit("AddMatch");
    reveal_strlit("RemoveMatch");
    reveal_strlit("GetConnectionCredentials");
    reveal_strlit("GetConnectionUnixUser");
    reveal_strlit("GetConnectionUnixProcessID");
    reveal_strlit("GetConnectionSELinuxSecurityContext");
    reveal_strlit("GetAdtAuditSessionData");
    reveal_strlit("NameHasOwner");
    reveal_strlit("RequestName");
    reveal_strlit("ReleaseName");
    reveal_strlit("StartServiceByName");
    reveal_strlit("GetNameOwner");
    reveal_strlit("ListQueuedOwners");
    assert("ListNames"@.len() == 9 && "ListActivatableNames"@.len() == 20);
    assert("AddMatch"@.len() == 8 && "RemoveMatch"@.len() == 11 && "RemoveMatch"@[2] == 'm');
    assert("GetConnectionCredentials"@.len() == 24 && "GetConnectionUnixUser"@.len() == 21);
    assert("GetConnectionUnixProcessID"@.len() == 26 && "GetConnectionSELinuxSecurityContext"@.len() == 35);
    assert("GetAdtAuditSessionData"@.len() == 22 && "NameHasOwner"@.len() == 12);
    assert("RequestName"@.len() == 11 && "RequestName"@[2] == 'q');
    assert("ReleaseName"@.len() == 11 && "ReleaseName"@[2] == 'l');
    assert("StartServiceByName"@.len() == 18 && "GetNameOwner"@.len() == 12 && "ListQueuedOwners"@.len() == 16);
}

/// For other clients, a call on the bus daemon whose argument is a bus name
/// (RequestName, GetNameOwner, the credential queries, ...) goes to the bus
/// of that name: the bus of its fake prefix, else the host bus when a host
/// route matches it, else the sandbox bus.
pub proof fn law_name_argument_routing(
    config: ConfigView,
    h: MessageHeader,
    raw: Seq<u8>,
    client_exe: Option<Seq<char>>,
    member: Seq<char>,
    name: Seq<char>,
)
    requires
        !(client_exe matches Some(exe) && spec_has_hostpass(config, exe)),
        spec_is_daemon_call(h),
        opt_view(h.member) == Some(member),
        spec_needs_request_rewrite(member) || spec_is_name_method(member),
        spec_body_string(h.endian, raw) == Some(name),
    ensures
        spec_route_request(config, h, raw, client_exe) == RouteDecision::Single(spec_bus_for_name(config, name)),
{
    lemma_daemon_is_not_fake();
    lemma_name_methods_distinct(member);
}

/// For other clients, AddMatch and RemoveMatch go to the bus of the rule's
/// sender, and to both buses when the rule names no sender.
pub proof fn law_match_rule_routing(
    config: ConfigView,
    h: MessageHeader,
    raw: Seq<u8>,
    client_exe: Option<Seq<char>>,
    rule: Seq<char>,
)
    requires
        !(client_exe matches Some(exe) && spec_has_hostpass(config, exe)),
        spec_is_daemon_call(h),
        h.member matches Some(m) && spec_is_match_rule_method(m@),
        spec_body_string(h.endian, raw) == Some(rule),
    ensures
        spec_route_request(config, h, raw, client_exe) == match spec_match_rule_sender(rule) {
            Some(sender) => RouteDecision::Single(spec_bus_for_name(config, sender)),
            None => RouteDecision::Both,
        },
{
    lemma_daemon_is_not_fake();
    reveal_strlit("ListNames");
    reveal_strlit("ListActivatableNames");
    reveal_strlit("AddMatch");
    reveal_strlit("RemoveMatch");
    assert("ListNames"@.len() == 9 && "ListActivatableNames"@.len() == 20);
    assert("AddMatch"@.len() == 8 && "RemoveMatch"@.len() == 11);
}

/// For a client without hostpass, a call on the bus daemon that lists
/// names (`ListNames`, `ListActivatableNames`) asks both buses and merges
/// their replies, whatever its body and the configuration.
pub proof fn law_name_listing_is_merged(
    config: ConfigView,
    h: MessageHeader,
    raw: Seq<u8>,
    client_exe: Option<Seq<char>>,
)
    requires
        !(client_exe matches Some(exe) && spec_has_hostpass(config, exe)),
        spec_is_daemon_call(h),
        h.member matches Some(m) && (m@ == "ListNames"@ || m@ == "ListActivatableNames"@),
    ensures
        spec_route_request(config, h, raw, client_exe) == RouteDecision::Merge,
{
    lemma_daemon_is_not_fake();
}

} // verus!
