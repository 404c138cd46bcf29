//! Routing rules: which destinations go to the host bus, and which client
//! processes have all their traffic sent there.

use vstd::prelude::*;
use crate::text::{chars_eq, chars_of, spec_strip_prefix, spec_strip_suffix, strip_prefix_chars, strip_suffix_chars};

verus! {

/// A process allowed to register services on the host bus.
#[derive(Debug, Clone)]
pub struct HostPass {
    /// Glob pattern over the path of the executable (e.g. `*/python3*`);
    /// a plain path names exactly that executable.
    pub process: String,
}

/// A routing rule that matches destinations.
#[derive(Debug, Clone)]
pub struct RouteRule {
    /// Destination to match. Supports exact match or "org.foo.*" wildcard.
    pub destination: String,
}

/// Router configuration.
#[derive(Debug, Clone)]
pub struct Config {
    /// Routes that should go to the host bus instead of sandbox.
    pub host_routes: Vec<RouteRule>,
    /// Processes allowed to register services on the host bus.
    pub hostpass: Vec<HostPass>,
}

/// A configuration as mathematical values.
pub struct ConfigView {
    pub host_routes: Seq<Seq<char>>,
    pub hostpass: Seq<Seq<char>>,
}

impl Config {
    pub open spec fn view(&self) -> ConfigView {
        ConfigView {
            host_routes: self.host_routes@.map_values(|r: RouteRule| r.destination@),
            hostpass: self.hostpass@.map_values(|h: HostPass| h.process@),
        }
    }
}

impl Default for Config {
    fn default() -> (r: Self)
        ensures
            r.host_routes@.len() == 0,
            r.hostpass@.len() == 0,
    {
        Config { host_routes: Vec::new(), hostpass: Vec::new() }
    }
}

/// Whether a rule matches a destination. A rule `P.*` matches `P` itself
/// and every name that continues `P` with a dot; any other rule matches
/// only the identical name.
pub open spec fn spec_rule_matches(rule: Seq<char>, destination: Seq<char>) -> bool {
    match spec_strip_suffix(rule, ".*"@) {
        Some(prefix) => destination == prefix || match spec_strip_prefix(destination, prefix) {
            Some(rest) => rest.len() > 0 && rest[0] == '.',
            None => false,
        },
        None => rule == destination,
    }
}

/// Some host route matches the destination.
pub open spec fn spec_should_route_to_host(config: ConfigView, destination: Seq<char>) -> bool {
    exists|i: int| 0 <= i < config.host_routes.len() && spec_rule_matches(#[trigger] config.host_routes[i], destination)
}

/// What `glob::Pattern::new(pattern)` and then `matches(name)` give: `None`
/// where the pattern is not a valid glob pattern.
pub uninterp spec fn glob_match(pattern: Seq<char>, name: Seq<char>) -> Option<bool>;

/// The pattern holds none of the glob metacharacters `*`, `?` and `[`.
pub open spec fn is_literal_pattern(pattern: Seq<char>) -> bool {
    forall|i: int| 0 <= i < pattern.len() ==> #[trigger] pattern[i] != '*' && pattern[i] != '?' && pattern[i] != '['
}

/// Matches `name` against the glob pattern `pattern` with
/// `glob::Pattern::new` and `Pattern::matches` (default options: case
/// sensitive, `*` and `?` also match `/`). The result is named
/// `glob_match`. A pattern without metacharacters is valid and matches
/// exactly the identical name (it is parsed into one literal token per
/// character, each compared exactly; this holds on Unix, where `/` is the
/// only path separator); nothing more is stated.
#[verifier::external_body]
pub(crate) fn glob_matches(pattern: &str, name: &str) -> (r: Option<bool>)
    ensures
        r == glob_match(pattern@, name@),
        is_literal_pattern(pattern@) ==> r == Some(pattern@ == name@),
{
    match glob::Pattern::new(pattern) {
        Ok(p) => Some(p.matches(name)),
        Err(_) => None,
    }
}

/// Some hostpass pattern matches the executable's path. A pattern that is
/// not a valid glob pattern matches nothing.
pub open spec fn spec_has_hostpass(config: ConfigView, exe_path: Seq<char>) -> bool {
    exists|i: int| 0 <= i < config.hostpass.len() && glob_match(#[trigger] config.hostpass[i], exe_path) == Some(true)
}

impl RouteRule {
    /// Check if the destination matches this rule.
    /// Supports exact match and "org.foo.*" wildcard pattern.
    pub fn matches(&self, destination: &str) -> (r: bool)
        ensures
            r == spec_rule_matches(self.destination@, destination@),
    {
        let rule = chars_of(self.destination.as_str());
        let dest = chars_of(destination);
        let wildcard = chars_of(".*");
        if let Some(prefix) = strip_suffix_chars(&rule, &wildcard) {
            // Wildcard: destination must start with prefix and either equal it
            // or have a dot after the prefix
            if chars_eq(&dest, &prefix) {
                return true;
            }
            if let Some(rest) = strip_prefix_chars(&dest, &prefix) {
                return rest.len() > 0 && rest[0] == '.';
            }
            false
        } else {
            // Exact match
            chars_eq(&rule, &dest)
        }
    }
}

impl Config {
    /// Check if a destination should be routed to the host bus.
    pub fn should_route_to_host(&self, destination: &str) -> (r: bool)
        ensures
            r == spec_should_route_to_host(self@, destination@),
    {
        let mut i: usize = 0;
        while i < self.host_routes.len()
            invariant
                i <= self.host_routes@.len(),
                forall|j: int| 0 <= j < i ==> !spec_rule_matches(#[trigger] self@.host_routes[j], destination@),
            decreases self.host_routes.len() - i,
        {
            if self.host_routes[i].matches(destination) {
                assert(self@.host_routes[i as int] == self.host_routes@[i as int].destination@);
                return true;
            }
            i = i + 1;
        }
        false
    }

    /// Check if a process is allowed to register services on the host bus:
    /// some hostpass pattern matches its executable's path.
    pub fn has_hostpass(&self, exe_path: &str) -> (r: bool)
        ensures
            r == spec_has_hostpass(self@, exe_path@),
            (forall|j: int| 0 <= j < self@.hostpass.len() ==> is_literal_pattern(#[trigger] self@.hostpass[j]))
                ==> (r <==> self@.hostpass.contains(exe_path@)),
    {
        let mut i: usize = 0;
        while i < self.hostpass.len()
            invariant
                i <= self.hostpass@.len(),
                forall|j: int| 0 <= j < i ==> glob_match(#[trigger] self@.hostpass[j], exe_path@) != Some(true),
                forall|j: int|
                    0 <= j < i && is_literal_pattern(#[trigger] self@.hostpass[j]) ==> self@.hostpass[j] != exe_path@,
            decreases self.hostpass.len() - i,
        {
            let m = glob_matches(self.hostpass[i].process.as_str(), exe_path);
            assert(self@.hostpass[i as int] == self.hostpass@[i as int].process@);
            if m == Some(true) {
                proof {
                    if forall|j: int| 0 <= j < self@.hostpass.len() ==> is_literal_pattern(#[trigger] self@.hostpass[j]) {
                        assert(is_literal_pattern(self@.hostpass[i as int]));
                        assert(self@.hostpass[i as int] == exe_path@);
                    }
                }
                return true;
            }
            i = i + 1;
        }
        proof {
            if self@.hostpass.contains(exe_path@) {
                let k = choose|k: int| 0 <= k < self@.hostpass.len() && self@.hostpass[k] == exe_path@;
                assert(!is_literal_pattern(self@.hostpass[k]));
            }
        }
        false
    }
}

/// A wildcard rule `P.*` matches `P` itself and every name `P.x`, and no
/// name that continues `P` with a character other than a dot.
pub proof fn law_wildcard_rule(prefix: Seq<char>, rest: Seq<char>, c: char)
    requires
        c != '.',
    ensures
        spec_rule_matches(prefix + ".*"@, prefix),
        spec_rule_matches(prefix + ".*"@, prefix + seq!['.'] + rest),
        !spec_rule_matches(prefix + ".*"@, prefix + seq![c] + rest),
{
    reveal_strlit(".*");
    let rule = prefix + ".*"@;
    assert(rule.skip(rule.len() - 2) =~= ".*"@);
    assert(rule.take(rule.len() - 2) =~= prefix);
    let d1 = prefix + seq!['.'] + rest;
    assert(d1.subrange(0, prefix.len() as int) =~= prefix);
    assert(d1.skip(prefix.len() as int) =~= seq!['.'] + rest);
    let d2 = prefix + seq![c] + rest;
    assert(d2.subrange(0, prefix.len() as int) =~= prefix);
    assert(d2.skip(prefix.len() as int) =~= seq![c] + rest);
    assert(d2 != prefix) by {
        assert(d2.len() != prefix.len());
    }
}

/// A rule that does not end in `.*` matches exactly the identical name.
pub proof fn law_exact_rule(rule: Seq<char>, destination: Seq<char>)
    requires
        spec_strip_suffix(rule, ".*"@) is None,
    ensures
        spec_rule_matches(rule, destination) <==> rule == destination,
{
}

/// With no host routes nothing goes to the host bus, and with no hostpass
/// entries no process is a hostpass process.
pub proof fn law_empty_config(config: ConfigView, name: Seq<char>)
    requires
        config.host_routes.len() == 0,
        config.hostpass.len() == 0,
    ensures
        !spec_should_route_to_host(config, name),
        !spec_has_hostpass(config, name),
{
}

} // verus!
