//! Calls into `zvariant` for the parts of the D-Bus encoding that the router
//! decodes or builds with that crate. Each function converts its arguments
//! and its result between `zvariant`'s types and plain values; the verified
//! code around them works on the plain values only.

use vstd::prelude::*;
use vstd::string::*;
use vstd::utf8::*;
use crate::wire::{align_up, lemma_align_up, Endian};
use zvariant::serialized::{Context, Data};
use zvariant::{to_bytes, Endian as ZEndian, Error as ZvariantError, ObjectPath, Signature, Value};

verus! {

/// A header field value as the router reads it: the three string-like
/// D-Bus types, `u32`, and everything else.
#[derive(Debug, Clone)]
pub enum HeaderValue {
    Str(String),
    ObjectPath(String),
    Signature(String),
    U32(u32),
    Other,
}

/// A header field value as a mathematical value.
pub enum HeaderValueView {
    Str(Seq<char>),
    ObjectPath(Seq<char>),
    Signature(Seq<char>),
    U32(u32),
    Other,
}

impl HeaderValue {
    pub open spec fn view(self) -> HeaderValueView {
        match self {
            HeaderValue::Str(s) => HeaderValueView::Str(s@),
            HeaderValue::ObjectPath(s) => HeaderValueView::ObjectPath(s@),
            HeaderValue::Signature(s) => HeaderValueView::Signature(s@),
            HeaderValue::U32(n) => HeaderValueView::U32(n),
            HeaderValue::Other => HeaderValueView::Other,
        }
    }
}

impl HeaderValue {
    /// A copy of this value.
    pub fn duplicate(&self) -> (r: HeaderValue)
        ensures
            r == *self,
    {
        match self {
            HeaderValue::Str(s) => HeaderValue::Str(s.clone()),
            HeaderValue::ObjectPath(s) => HeaderValue::ObjectPath(s.clone()),
            HeaderValue::Signature(s) => HeaderValue::Signature(s.clone()),
            HeaderValue::U32(n) => HeaderValue::U32(*n),
            HeaderValue::Other => HeaderValue::Other,
        }
    }
}

/// The views of a sequence of `(code, value)` header fields.
pub open spec fn header_values_view(v: Seq<(u8, HeaderValue)>) -> Seq<(u8, HeaderValueView)> {
    v.map_values(|f: (u8, HeaderValue)| (f.0, f.1.view()))
}

/// What `zvariant` decodes from `bytes` as a D-Bus `a(yv)` array (header
/// fields) at stream position `position`: `None` where it reports an error.
pub uninterp spec fn dbus_header_fields_decoding(
    bytes: Seq<u8>,
    endian: Endian,
    position: usize,
) -> Option<Seq<(u8, HeaderValueView)>>;

/// Decodes `bytes` as the header fields array `a(yv)` with
/// `zvariant::serialized::Data::deserialize`, keeping of each variant value
/// its string (for `s`, `o` and `g`) or its `u32`. The result is named
/// `dbus_header_fields_decoding`; nothing more is stated of it.
#[verifier::external_body]
pub(crate) fn decode_header_fields(bytes: &[u8], endian: Endian, position: usize) -> (r: Option<Vec<(u8, HeaderValue)>>)
    ensures
        match r {
            Some(v) => dbus_header_fields_decoding(bytes@, endian, position) == Some(header_values_view(v@)),
            None => dbus_header_fields_decoding(bytes@, endian, position) is None,
        },
{
    let z = match endian { Endian::Little => ZEndian::Little, Endian::Big => ZEndian::Big };
    let data = Data::new(bytes, Context::new_dbus(z, position));
    let (fields, _) = data.deserialize::<Vec<(u8, Value)>>().ok()?;
    Some(fields.into_iter().map(|(code, value)| (code, match value {
        Value::Str(s) => HeaderValue::Str(s.to_string()),
        Value::ObjectPath(p) => HeaderValue::ObjectPath(p.to_string()),
        Value::Signature(s) => HeaderValue::Signature(s.to_string()),
        Value::U32(n) => HeaderValue::U32(n),
        _ => HeaderValue::Other,
    })).collect())
}

/// What `zvariant` decodes from `bytes` as one D-Bus string at position
/// `position`.
pub uninterp spec fn dbus_string_decoding(bytes: Seq<u8>, endian: Endian, position: usize) -> Option<Seq<char>>;

/// Decodes `bytes` as one D-Bus string with `Data::deserialize::<String>`.
/// The result is named `dbus_string_decoding`.
#[verifier::external_body]
pub(crate) fn decode_string(bytes: &[u8], endian: Endian, position: usize) -> (r: Option<String>)
    ensures
        match r {
            Some(v) => dbus_string_decoding(bytes@, endian, position) == Some(v@),
            None => dbus_string_decoding(bytes@, endian, position) is None,
        },
{
    let z = match endian { Endian::Little => ZEndian::Little, Endian::Big => ZEndian::Big };
    let data = Data::new(bytes, Context::new_dbus(z, position));
    data.deserialize::<String>().ok().map(|(v, _)| v)
}

/// What `zvariant` decodes from `bytes` as one D-Bus `u` at position `position`.
pub uninterp spec fn dbus_u32_decoding(bytes: Seq<u8>, endian: Endian, position: usize) -> Option<u32>;

/// Decodes `bytes` as a D-Bus `u` with `Data::deserialize::<u32>`. The
/// result is named `dbus_u32_decoding`.
#[verifier::external_body]
pub(crate) fn decode_u32(bytes: &[u8], endian: Endian, position: usize) -> (r: Option<u32>)
    ensures
        r == dbus_u32_decoding(bytes@, endian, position),
{
    let z = match endian { Endian::Little => ZEndian::Little, Endian::Big => ZEndian::Big };
    let data = Data::new(bytes, Context::new_dbus(z, position));
    data.deserialize::<u32>().ok().map(|(v, _)| v)
}

/// What `zvariant` decodes from `bytes` as a D-Bus string then `u` at
/// position `position`.
pub uninterp spec fn dbus_string_u32_decoding(bytes: Seq<u8>, endian: Endian, position: usize) -> Option<(Seq<char>, u32)>;

/// Decodes `bytes` with `Data::deserialize::<(String, u32)>`. The result is
/// named `dbus_string_u32_decoding`.
#[verifier::external_body]
pub(crate) fn decode_string_u32(bytes: &[u8], endian: Endian, position: usize) -> (r: Option<(String, u32)>)
    ensures
        match r {
            Some((a, b)) => dbus_string_u32_decoding(bytes@, endian, position) == Some((a@, b)),
            None => dbus_string_u32_decoding(bytes@, endian, position) is None,
        },
{
    let z = match endian { Endian::Little => ZEndian::Little, Endian::Big => ZEndian::Big };
    let data = Data::new(bytes, Context::new_dbus(z, position));
    data.deserialize::<(String, u32)>().ok().map(|(v, _)| v)
}

/// What `zvariant` decodes from `bytes` as two D-Bus strings at position
/// `position`.
pub uninterp spec fn dbus_string_pair_decoding(bytes: Seq<u8>, endian: Endian, position: usize) -> Option<(Seq<char>, Seq<char>)>;

/// Decodes `bytes` with `Data::deserialize::<(String, String)>`. The result
/// is named `dbus_string_pair_decoding`.
#[verifier::external_body]
pub(crate) fn decode_string_pair(bytes: &[u8], endian: Endian, position: usize) -> (r: Option<(String, String)>)
    ensures
        match r {
            Some((a, b)) => dbus_string_pair_decoding(bytes@, endian, position) == Some((a@, b@)),
            None => dbus_string_pair_decoding(bytes@, endian, position) is None,
        },
{
    let z = match endian { Endian::Little => ZEndian::Little, Endian::Big => ZEndian::Big };
    let data = Data::new(bytes, Context::new_dbus(z, position));
    data.deserialize::<(String, String)>().ok().map(|(v, _)| v)
}

/// `zvariant`'s error type, carried only to be mapped to the router's own.
#[verifier::external_type_specification]
#[verifier::external_body]
pub struct ExZvariantError(ZvariantError);

/// The views of a sequence of strings.
pub open spec fn strings_view(v: Seq<String>) -> Seq<Seq<char>> {
    v.map_values(|s: String| s@)
}

/// What `zvariant` decodes from `bytes` as a D-Bus `as` (array of strings)
/// at stream position `position`: `None` where it reports an error.
pub uninterp spec fn dbus_string_array_decoding(bytes: Seq<u8>, endian: Endian, position: usize) -> Option<Seq<Seq<char>>>;

/// Decodes `bytes` as a D-Bus `as` with `Data::deserialize::<Vec<String>>`.
/// The result is named `dbus_string_array_decoding`.
#[verifier::external_body]
pub(crate) fn decode_string_array(bytes: &[u8], endian: Endian, position: usize) -> (r: Option<Vec<String>>)
    ensures
        match r {
            Some(v) => dbus_string_array_decoding(bytes@, endian, position) == Some(strings_view(v@)),
            None => dbus_string_array_decoding(bytes@, endian, position) is None,
        },
{
    let z = match endian { Endian::Little => ZEndian::Little, Endian::Big => ZEndian::Big };
    let data = Data::new(bytes, Context::new_dbus(z, position));
    data.deserialize::<Vec<String>>().ok().map(|(names, _)| names)
}

/// What `zvariant` decodes from `bytes` as a D-Bus `(sss)` (three strings,
/// as in `NameOwnerChanged`) at stream position `position`.
pub uninterp spec fn dbus_string_triple_decoding(
    bytes: Seq<u8>,
    endian: Endian,
    position: usize,
) -> Option<(Seq<char>, Seq<char>, Seq<char>)>;

/// Decodes `bytes` as three D-Bus strings with
/// `Data::deserialize::<(String, String, String)>`. The result is named
/// `dbus_string_triple_decoding`.
#[verifier::external_body]
pub(crate) fn decode_string_triple(bytes: &[u8], endian: Endian, position: usize) -> (r: Option<(String, String, String)>)
    ensures
        match r {
            Some((a, b, c)) => dbus_string_triple_decoding(bytes@, endian, position) == Some((a@, b@, c@)),
            None => dbus_string_triple_decoding(bytes@, endian, position) is None,
        },
{
    let z = match endian { Endian::Little => ZEndian::Little, Endian::Big => ZEndian::Big };
    let data = Data::new(bytes, Context::new_dbus(z, position));
    data.deserialize::<(String, String, String)>().ok().map(|(t, _)| t)
}

/// Where the data of an array of strings (`as`) that starts at `start`
/// ends: each string aligned to 4 bytes, then its `u32` length, its UTF-8
/// bytes and a NUL.
pub open spec fn spec_string_array_end(names: Seq<Seq<char>>, start: int) -> int
    decreases names.len(),
{
    if names.len() == 0 {
        start
    } else {
        align_up(spec_string_array_end(names.drop_last(), start), 4) + 4 + encode_utf8(names.last()).len() + 1
    }
}

/// The byte length of an array of strings encoded at position 0 (its data
/// starts after the 4-byte length) fits the array's `u32` length.
pub open spec fn string_array_fits(names: Seq<Seq<char>>) -> bool {
    spec_string_array_end(names, 4) - 4 <= u32::MAX
}

/// The array's data never ends before it starts, and a prefix of the
/// strings ends no later than all of them.
pub proof fn lemma_string_array_end_grows(names: Seq<Seq<char>>, k: int, start: int)
    requires
        0 <= k <= names.len(),
        start >= 0,
    ensures
        start <= spec_string_array_end(names.take(k), start) <= spec_string_array_end(names, start),
    decreases names.len(),
{
    if names.len() == 0 {
        assert(names.take(k) =~= names);
    } else if k == names.len() {
        assert(names.take(k) =~= names);
        lemma_string_array_end_grows(names.drop_last(), k - 1, start);
        lemma_align_up(spec_string_array_end(names.drop_last(), start), 4);
    } else {
        lemma_string_array_end_grows(names.drop_last(), k, start);
        assert(names.drop_last().take(k) =~= names.take(k));
        lemma_string_array_end_grows(names.drop_last(), names.len() - 1, start);
        assert(names.drop_last().take(names.len() - 1) =~= names.drop_last());
        lemma_align_up(spec_string_array_end(names.drop_last(), start), 4);
    }
}

/// Whether `names`, encoded as an array of strings at position 0, has a
/// byte length that its `u32` length can hold.
pub fn string_array_fits_u32(names: &Vec<String>) -> (r: bool)
    ensures
        r == string_array_fits(strings_view(names@)),
{
    let ghost all = strings_view(names@);
    let mut end: u64 = 4;
    let mut i: usize = 0;
    while i < names.len()
        invariant
            i <= names@.len(),
            all == strings_view(names@),
            end == spec_string_array_end(all.take(i as int), 4),
            end - 4 <= u32::MAX,
        decreases names.len() - i,
    {
        let ghost prev = end as int;
        proof {
            lemma_align_up(prev, 4);
            assert(all.take(i + 1).drop_last() =~= all.take(i as int));
            assert(all.take(i + 1).last() == names@[i as int]@);
        }
        let n = names[i].as_str().as_bytes().len();
        let aligned: u64 = (end + 3) / 4 * 4;
        assert(aligned == align_up(prev, 4));
        if n as u64 > 0xFFFF_FFFFu64 || aligned + 5 + n as u64 - 4 > 0xFFFF_FFFFu64 {
            proof {
                lemma_string_array_end_grows(all, i + 1, 4);
            }
            return false;
        }
        end = aligned + 5 + n as u64;
        i = i + 1;
    }
    proof {
        assert(all.take(names@.len() as int) =~= all);
    }
    true
}

/// The bytes `zvariant::to_bytes` makes of an array of strings at stream
/// position 0: `None` where it reports an error.
pub uninterp spec fn dbus_string_array_encoding(names: Seq<Seq<char>>, endian: Endian) -> Option<Seq<u8>>;

/// Serialises an array of strings (`as`) with `zvariant::to_bytes` at
/// position 0. The result is named `dbus_string_array_encoding`; the
/// encoding of an array starts with its 4-byte length. `zvariant` panics
/// where a string's length or the array's byte length does not fit a
/// `u32`, so the array must fit.
#[verifier::external_body]
pub(crate) fn encode_string_array(names: &Vec<String>, endian: Endian) -> (r: Result<Vec<u8>, ZvariantError>)
    requires
        string_array_fits(strings_view(names@)),
    ensures
        r is Ok <==> dbus_string_array_encoding(strings_view(names@), endian) is Some,
        r matches Ok(b) ==> dbus_string_array_encoding(strings_view(names@), endian) == Some(b@) && b@.len() >= 4,
{
    let z = match endian { Endian::Little => ZEndian::Little, Endian::Big => ZEndian::Big };
    match to_bytes(Context::new_dbus(z, 0), names) {
        Ok(data) => Ok(data.to_vec()),
        Err(e) => Err(e),
    }
}

/// The bytes `zvariant::to_bytes` makes of three strings `(sss)` at stream
/// position 0: `None` where it reports an error.
pub uninterp spec fn dbus_string_triple_encoding(
    a: Seq<char>,
    b: Seq<char>,
    c: Seq<char>,
    endian: Endian,
) -> Option<Seq<u8>>;

/// Serialises three strings with `zvariant::to_bytes` at position 0. The
/// result is named `dbus_string_triple_encoding`. `zvariant` panics where
/// a string's length does not fit a `u32`, so each must.
#[verifier::external_body]
pub(crate) fn encode_string_triple(a: String, b: String, c: String, endian: Endian) -> (r: Result<Vec<u8>, ZvariantError>)
    requires
        encode_utf8(a@).len() <= u32::MAX,
        encode_utf8(b@).len() <= u32::MAX,
        encode_utf8(c@).len() <= u32::MAX,
    ensures
        r is Ok <==> dbus_string_triple_encoding(a@, b@, c@, endian) is Some,
        r matches Ok(v) ==> dbus_string_triple_encoding(a@, b@, c@, endian) == Some(v@),
{
    let z = match endian { Endian::Little => ZEndian::Little, Endian::Big => ZEndian::Big };
    match to_bytes(Context::new_dbus(z, 0), &(a, b, c)) {
        Ok(data) => Ok(data.to_vec()),
        Err(e) => Err(e),
    }
}

/// A header field value the router writes: the three string-like D-Bus
/// types and `u32`.
#[derive(Debug)]
pub enum FieldValue {
    Str(String),
    ObjectPath(String),
    Signature(String),
    U32(u32),
}

impl FieldValue {
    pub open spec fn view(self) -> HeaderValueView {
        match self {
            FieldValue::Str(s) => HeaderValueView::Str(s@),
            FieldValue::ObjectPath(s) => HeaderValueView::ObjectPath(s@),
            FieldValue::Signature(s) => HeaderValueView::Signature(s@),
            FieldValue::U32(n) => HeaderValueView::U32(n),
        }
    }
}

/// The views of a sequence of `(code, value)` header fields to write.
pub open spec fn field_values_view(v: Seq<(u8, FieldValue)>) -> Seq<(u8, HeaderValueView)> {
    v.map_values(|f: (u8, FieldValue)| (f.0, f.1.view()))
}

/// The byte length of a string-like value, 0 for the others.
pub open spec fn value_text_len(v: HeaderValueView) -> int {
    match v {
        HeaderValueView::Str(s) => encode_utf8(s).len() as int,
        HeaderValueView::ObjectPath(s) => encode_utf8(s).len() as int,
        HeaderValueView::Signature(s) => encode_utf8(s).len() as int,
        _ => 0,
    }
}

/// At most 255 fields, each string-like value at most 255 bytes long: well
/// within the lengths `zvariant` writes (a `u32` for strings, object paths
/// and the array, one byte for a signature).
pub open spec fn header_fields_fit(fields: Seq<(u8, HeaderValueView)>) -> bool {
    &&& fields.len() <= 255
    &&& forall|i: int| 0 <= i < fields.len() ==> value_text_len(#[trigger] fields[i].1) <= 255
}

/// The bytes `zvariant::to_bytes` makes of a header fields array `a(yv)`
/// holding `fields` (each value a variant of its own D-Bus type), at
/// stream position `position`: `None` where an object path is not valid or
/// `to_bytes` reports an error.
pub uninterp spec fn dbus_header_fields_encoding(
    fields: Seq<(u8, HeaderValueView)>,
    endian: Endian,
    position: usize,
) -> Option<Seq<u8>>;

/// Serialises header fields as `a(yv)` with `zvariant::to_bytes` at
/// `position`, each value converted to the `zvariant::Value` of its type:
/// a string (`Value::Str`), an object path checked by
/// `ObjectPath::try_from` (its error is the failure), a signature taken
/// unchecked (`Signature::from_str_unchecked`), a `u32`. The result is named
/// `dbus_header_fields_encoding`; the encoding of an array starts with its
/// 4-byte length. `zvariant` panics where a length does not fit the integer
/// it is written in, so the fields must be short (`header_fields_fit`).
#[verifier::external_body]
pub(crate) fn encode_header_fields(fields: &Vec<(u8, FieldValue)>, endian: Endian, position: usize) -> (r: Result<Vec<u8>, ZvariantError>)
    requires
        header_fields_fit(field_values_view(fields@)),
    ensures
        r is Ok <==> dbus_header_fields_encoding(field_values_view(fields@), endian, position) is Some,
        r matches Ok(b) ==> dbus_header_fields_encoding(field_values_view(fields@), endian, position) == Some(b@)
            && b@.len() >= 4,
{
    let z = match endian { Endian::Little => ZEndian::Little, Endian::Big => ZEndian::Big };
    let values = fields.iter().map(|(code, v)| Ok((*code, match v {
        FieldValue::Str(s) => Value::Str(s.as_str().into()),
        FieldValue::ObjectPath(p) => Value::ObjectPath(ObjectPath::try_from(p.as_str())?),
        FieldValue::Signature(s) => Value::Signature(Signature::from_str_unchecked(s.as_str())),
        FieldValue::U32(n) => Value::U32(*n),
    }))).collect::<Result<Vec<(u8, Value)>, ZvariantError>>()?;
    match to_bytes(Context::new_dbus(z, position), &values) {
        Ok(data) => Ok(data.to_vec()),
        Err(e) => Err(e),
    }
}

/// The view of an optional string slice.
pub open spec fn opt_str_view(o: Option<&str>) -> Option<Seq<char>> {
    match o {
        Some(s) => Some(s@),
        None => None,
    }
}

} // verus!
