//! Fake unique names: a bus prefix added to D-Bus unique names.
//!
//! A unique name `:1.123` owned on the host bus is shown to the client as
//! `:h.1.123`, one owned on the sandbox bus as `:s.1.123`. The prefix tells
//! the router which bus a name given back by the client belongs to.
//! Well-known names (e.g. `org.fcitx.Fcitx5`) are never transformed.

use vstd::prelude::*;
use crate::bus::Bus;
use crate::text::{chars_have_prefix, chars_of, has_prefix, string_of};

verus! {

/// Prefix for host bus unique names.
pub const HOST_PREFIX: &'static str = ":h.";

/// Prefix for sandbox bus unique names.
pub const SANDBOX_PREFIX: &'static str = ":s.";

/// The letter that marks a bus inside a fake unique name.
pub open spec fn bus_letter(bus: Bus) -> char {
    match bus {
        Bus::Host => 'h',
        Bus::Sandbox => 's',
    }
}

/// The prefix added to unique names of `bus`: `:h.` or `:s.`.
pub open spec fn spec_prefix(bus: Bus) -> Seq<char> {
    seq![':', bus_letter(bus), '.']
}

/// A unique name starts with `:`.
pub open spec fn spec_is_unique_name(name: Seq<char>) -> bool {
    name.len() > 0 && name[0] == ':'
}

/// A fake unique name starts with one of the two bus prefixes.
pub open spec fn spec_is_fake_unique_name(name: Seq<char>) -> bool {
    has_prefix(name, spec_prefix(Bus::Host)) || has_prefix(name, spec_prefix(Bus::Sandbox))
}

/// `:X` seen on `bus` becomes `:b.X`; any other name is unchanged.
pub open spec fn spec_to_fake_name(real_name: Seq<char>, bus: Bus) -> Seq<char> {
    if spec_is_unique_name(real_name) {
        spec_prefix(bus) + real_name.skip(1)
    } else {
        real_name
    }
}

/// The bus a fake unique name belongs to (the host prefix is tried first).
pub open spec fn spec_bus_of_fake_name(name: Seq<char>) -> Option<Bus> {
    if has_prefix(name, spec_prefix(Bus::Host)) {
        Some(Bus::Host)
    } else if has_prefix(name, spec_prefix(Bus::Sandbox)) {
        Some(Bus::Sandbox)
    } else {
        None
    }
}

/// `:b.X` becomes `(:X, b)`; a name without a bus prefix gives `None`.
pub open spec fn spec_from_fake_name(name: Seq<char>) -> Option<(Seq<char>, Bus)> {
    match spec_bus_of_fake_name(name) {
        Some(bus) => Some((seq![':'] + name.skip(3), bus)),
        None => None,
    }
}

fn prefix_chars(bus: Bus) -> (r: Vec<char>)
    ensures
        r@ == spec_prefix(bus),
{
    match bus {
        Bus::Host => vec![':', 'h', '.'],
        Bus::Sandbox => vec![':', 's', '.'],
    }
}

/// Convert a real unique name to a fake name with the prefix of `source`.
///
/// Well-known names (not starting with `:`) are returned unchanged.
pub fn to_fake_name(real_name: &str, source: Bus) -> (r: String)
    ensures
        r@ == spec_to_fake_name(real_name@, source),
{
    let cs = chars_of(real_name);
    if cs.len() == 0 || cs[0] != ':' {
        return real_name.to_owned();
    }
    let mut out = prefix_chars(source);
    let mut i: usize = 1;
    while i < cs.len()
        invariant
            1 <= i <= cs.len(),
            cs@ == real_name@,
            out@ == spec_prefix(source) + cs@.subrange(1, i as int),
        decreases cs.len() - i,
    {
        out.push(cs[i]);
        i = i + 1;
        assert(out@ =~= spec_prefix(source) + cs@.subrange(1, i as int));
    }
    assert(cs@.subrange(1, cs@.len() as int) =~= real_name@.skip(1));
    string_of(out.as_slice())
}

/// Convert a fake unique name back to the real_name name and the bus it names.
///
/// Returns `None` for a name without a bus prefix (a well-known name, or a
/// unique name without our prefix).
pub fn from_fake_name(fake: &str) -> (r: Option<(String, Bus)>)
    ensures
        match r {
            Some((real_name, bus)) => spec_from_fake_name(fake@) == Some((real_name@, bus)),
            None => spec_from_fake_name(fake@) is None,
        },
{
    let cs = chars_of(fake);
    let bus = match bus_of_chars(&cs) {
        Some(b) => b,
        None => return None,
    };
    let mut out: Vec<char> = vec![':'];
    let mut i: usize = 3;
    while i < cs.len()
        invariant
            3 <= i <= cs.len(),
            out@ == seq![':'] + cs@.subrange(3, i as int),
        decreases cs.len() - i,
    {
        out.push(cs[i]);
        i = i + 1;
        assert(out@ =~= seq![':'] + cs@.subrange(3, i as int));
    }
    assert(cs@.subrange(3, cs@.len() as int) =~= fake@.skip(3));
    Some((string_of(out.as_slice()), bus))
}

fn bus_of_chars(cs: &Vec<char>) -> (r: Option<Bus>)
    ensures
        r == spec_bus_of_fake_name(cs@),
        r is Some ==> cs@.len() >= 3,
{
    if chars_have_prefix(cs, &prefix_chars(Bus::Host)) {
        Some(Bus::Host)
    } else if chars_have_prefix(cs, &prefix_chars(Bus::Sandbox)) {
        Some(Bus::Sandbox)
    } else {
        None
    }
}

/// Check if a name is a unique name (starts with `:`).
pub fn is_unique_name(name: &str) -> (r: bool)
    ensures
        r == spec_is_unique_name(name@),
{
    let cs = chars_of(name);
    cs.len() > 0 && cs[0] == ':'
}

/// Check if a name is a fake unique name (has one of the bus prefixes).
pub fn is_fake_unique_name(name: &str) -> (r: bool)
    ensures
        r == spec_is_fake_unique_name(name@),
{
    let cs = chars_of(name);
    bus_of_chars(&cs).is_some()
}

/// Determine the target bus from a fake unique name.
///
/// Returns `None` if the name is not a fake unique name.
pub fn get_bus_from_fake_name(name: &str) -> (r: Option<Bus>)
    ensures
        r == spec_bus_of_fake_name(name@),
{
    let cs = chars_of(name);
    bus_of_chars(&cs)
}

/// A real unique name turned into a fake one is turned back into the same
/// name and the same bus.
pub proof fn law_fake_name_roundtrip(real_name: Seq<char>, bus: Bus)
    requires
        spec_is_unique_name(real_name),
    ensures
        spec_from_fake_name(spec_to_fake_name(real_name, bus)) == Some((real_name, bus)),
        spec_bus_of_fake_name(spec_to_fake_name(real_name, bus)) == Some(bus),
        spec_is_fake_unique_name(spec_to_fake_name(real_name, bus)),
{
    let fake = spec_to_fake_name(real_name, bus);
    assert(fake.subrange(0, 3) =~= spec_prefix(bus));
    assert(!has_prefix(fake, spec_prefix(Bus::Host)) ==> bus == Bus::Sandbox);
    assert(seq![':'] + fake.skip(3) =~= real_name);
}

/// A fake unique name is the fake form of the real name it is turned back
/// into: undoing and redoing the prefix gives the name back.
pub proof fn law_fake_name_inverse(name: Seq<char>)
    requires
        spec_from_fake_name(name) is Some,
    ensures
        spec_is_unique_name(spec_from_fake_name(name).unwrap().0),
        spec_to_fake_name(spec_from_fake_name(name).unwrap().0, spec_from_fake_name(name).unwrap().1)
            == name,
{
    let (r, b) = spec_from_fake_name(name).unwrap();
    assert(name.subrange(0, 3) == spec_prefix(b));
    assert(spec_prefix(b) + r.skip(1) =~= name);
}

/// Names that are not unique names (well-known names) are never transformed.
pub proof fn law_well_known_names_unchanged(name: Seq<char>, bus: Bus)
    requires
        !spec_is_unique_name(name),
    ensures
        spec_to_fake_name(name, bus) == name,
        spec_from_fake_name(name) is None,
        !spec_is_fake_unique_name(name),
{
    if has_prefix(name, spec_prefix(Bus::Host)) {
        assert(name[0] == name.subrange(0, 3)[0]);
    }
    if has_prefix(name, spec_prefix(Bus::Sandbox)) {
        assert(name[0] == name.subrange(0, 3)[0]);
    }
}

/// The three ways of recognising a fake unique name agree, and they agree on
/// its bus.
pub proof fn law_fake_name_classifiers_agree(name: Seq<char>)
    ensures
        spec_is_fake_unique_name(name) <==> spec_bus_of_fake_name(name) is Some,
        spec_is_fake_unique_name(name) <==> spec_from_fake_name(name) is Some,
        spec_from_fake_name(name) matches Some((_, b)) ==> spec_bus_of_fake_name(name) == Some(b),
        spec_is_fake_unique_name(name) ==> spec_is_unique_name(name),
{
    if spec_is_fake_unique_name(name) {
        assert(name[0] == name.subrange(0, 3)[0]);
    }
}

} // verus!
