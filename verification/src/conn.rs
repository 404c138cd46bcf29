//! D-Bus addresses of Unix sockets.

use vstd::prelude::*;
use crate::error::Error;
use crate::text::{chars_of, has_prefix, spec_split, spec_strip_prefix, split_chars, string_of, strip_prefix_chars, sub_chars, views_of};

verus! {

/// Parsed Unix socket address.
#[derive(Debug, Clone)]
pub enum UnixAddress {
    /// Filesystem path socket.
    Path(String),
    /// Abstract socket (Linux only).
    Abstract(String),
}

/// A Unix socket address as a mathematical value.
pub enum UnixAddressView {
    Path(Seq<char>),
    Abstract(Seq<char>),
}

impl UnixAddress {
    pub open spec fn view(self) -> UnixAddressView {
        match self {
            UnixAddress::Path(p) => UnixAddressView::Path(p@),
            UnixAddress::Abstract(n) => UnixAddressView::Abstract(n@),
        }
    }
}

/// The socket named by the first key, in order, that is `path=` or
/// `abstract=`.
pub open spec fn spec_first_socket(parts: Seq<Seq<char>>) -> Option<UnixAddressView>
    decreases parts.len(),
{
    if parts.len() == 0 {
        None
    } else {
        match spec_strip_prefix(parts[0], "path="@) {
            Some(p) => Some(UnixAddressView::Path(p)),
            None => match spec_strip_prefix(parts[0], "abstract="@) {
                Some(n) => Some(UnixAddressView::Abstract(n)),
                None => spec_first_socket(parts.drop_first()),
            },
        }
    }
}

/// The socket a D-Bus address names: the address must start with `unix:`,
/// and the first of its comma-separated keys that is `path=` or
/// `abstract=` names the socket.
pub open spec fn spec_parse_unix_address(addr: Seq<char>) -> Option<UnixAddressView> {
    if !has_prefix(addr, "unix:"@) {
        None
    } else {
        spec_first_socket(spec_split(addr.skip(5), ','))
    }
}

/// Parse a D-Bus address string to extract the Unix socket address.
/// Supports formats:
/// - unix:path=/path/to/socket
/// - unix:abstract=name
pub fn parse_unix_address(addr: &str) -> (r: Result<UnixAddress, Error>)
    ensures
        match r {
            Ok(a) => spec_parse_unix_address(addr@) == Some(a.view()),
            Err(e) => spec_parse_unix_address(addr@) is None && (if has_prefix(addr@, "unix:"@) {
                e matches Error::NoSocketInAddress(s) && s@ == addr@
            } else {
                e matches Error::UnsupportedAddress(s) && s@ == addr@
            }),
        },
{
    let cs = chars_of(addr);
    let scheme = chars_of("unix:");
    proof {
        reveal_strlit("unix:");
    }
    if !crate::text::chars_have_prefix(&cs, &scheme) {
        return Err(Error::UnsupportedAddress(addr.to_owned()));
    }
    assert(has_prefix(addr@, "unix:"@));
    let rest = sub_chars(&cs, 5, cs.len());
    assert(rest@ =~= addr@.skip(5));
    let parts = split_chars(&rest, ',');
    let path_key = chars_of("path=");
    let abstract_key = chars_of("abstract=");
    let ghost all = views_of(parts@);
    let mut i: usize = 0;
    assert(all.skip(0) =~= all);
    while i < parts.len()
        invariant
            i <= parts@.len(),
            all == views_of(parts@),
            all == spec_split(addr@.skip(5), ','),
            has_prefix(addr@, "unix:"@),
            path_key@ == "path="@,
            abstract_key@ == "abstract="@,
            spec_first_socket(all.skip(i as int)) == spec_first_socket(all),
        decreases parts.len() - i,
    {
        assert(all.skip(i as int).drop_first() =~= all.skip(i + 1));
        assert(all.skip(i as int)[0] == parts@[i as int]@);
        if let Some(path) = strip_prefix_chars(&parts[i], &path_key) {
            assert(spec_first_socket(all.skip(i as int)) == Some(UnixAddressView::Path(path@)));
            return Ok(UnixAddress::Path(string_of(path.as_slice())));
        }
        if let Some(name) = strip_prefix_chars(&parts[i], &abstract_key) {
            assert(spec_first_socket(all.skip(i as int)) == Some(UnixAddressView::Abstract(name@)));
            return Ok(UnixAddress::Abstract(string_of(name.as_slice())));
        }
        i = i + 1;
    }
    Err(Error::NoSocketInAddress(addr.to_owned()))
}

} // verus!
