//! Rewriting of header fields for the fake unique name scheme, and the
//! match rule strings of `AddMatch`/`RemoveMatch`.

use vstd::prelude::*;
use crate::bus::Bus;
use crate::error::Error;
use crate::fake_name::{
    from_fake_name, law_fake_name_roundtrip, spec_from_fake_name, spec_is_unique_name, spec_to_fake_name,
    to_fake_name,
};
use crate::message::{spec_body_start, Message, MessageHeader};
use crate::text::{
    chars_of, concat_chars, has_prefix, opt_view, spec_opt_is, spec_split, spec_split_once, spec_strip_prefix,
    spec_strip_suffix, spec_trim, split_chars, split_once_chars, str_eq, string_of, strip_prefix_chars,
    strip_suffix_chars, trim_char_chars, trim_chars, views_of, ws, is_char, replace_chars, spec_replace,
};
use vstd::string::*;
use vstd::utf8::*;
use crate::wire::{align_up, append_bytes, append_zeros, law_u32_roundtrip, lemma_align_up, read_u32_at, spec_pad8, spec_u32_at, spec_u32_bytes, Endian};

verus! {

/// Where the scan of the header fields array for one field code ends.
pub enum HeaderFieldScan {
    /// The field is not in the array.
    NotFound,
    /// The field's string value (a `u32` length, the bytes, a NUL) starts at
    /// this offset and ends within the array.
    Found(int),
    /// The array does not follow the D-Bus layout before the field is found.
    Malformed,
}

/// Size, and alignment, of the fixed-size basic D-Bus type with code `t`
/// (`y`; `n`, `q`; `b`, `i`, `u`, `h`; `x`, `t`, `d`); 0 for other codes.
pub open spec fn fixed_size(t: u8) -> int {
    if t == 121u8 {
        1
    } else if t == 110u8 || t == 113u8 {
        2
    } else if t == 98u8 || t == 105u8 || t == 117u8 || t == 104u8 {
        4
    } else if t == 120u8 || t == 116u8 || t == 100u8 {
        8
    } else {
        0
    }
}

/// The scan for field `code`, from offset `pos` of a header fields array
/// that ends at `fields_end`, following the D-Bus layout. Each field is a
/// struct aligned to 8 bytes: the code byte, then a variant whose signature
/// is one type code (length byte 1, the code, a NUL), then the value: a
/// string or object path (`s`, `o`) is a `u32` length aligned to 4, the
/// bytes and a NUL; a signature (`g`) is a length byte, the bytes and a
/// NUL; a fixed-size basic value is its bytes, aligned to its size. The
/// field sought must hold a string or an object path. Anything else, or a
/// value that runs past the array, is malformed.
#[verifier::opaque]
pub open spec fn spec_scan_fields(raw: Seq<u8>, endian: Endian, code: u8, fields_end: int, pos: int) -> HeaderFieldScan
    decreases fields_end - pos,
{
    if pos < 0 || pos >= fields_end {
        HeaderFieldScan::NotFound
    } else {
        let a = align_up(pos, 8);
        if a + 4 > fields_end || raw[a + 1] != 1u8 || raw[a + 3] != 0u8 {
            HeaderFieldScan::Malformed
        } else {
            let t = raw[a + 2];
            let v = a + 4;
            proof {
                lemma_align_up(pos, 8);
            }
            if t == 115u8 || t == 111u8 {
                let p = align_up(v, 4);
                proof {
                    lemma_align_up(v, 4);
                }
                if p + 4 > fields_end {
                    HeaderFieldScan::Malformed
                } else {
                    let end = p + 4 + spec_u32_at(endian, raw, p) + 1;
                    if end > fields_end {
                        HeaderFieldScan::Malformed
                    } else if raw[a] == code {
                        HeaderFieldScan::Found(p)
                    } else {
                        spec_scan_fields(raw, endian, code, fields_end, end)
                    }
                }
            } else if raw[a] == code {
                HeaderFieldScan::Malformed
            } else if t == 103u8 {
                if v + 1 > fields_end {
                    HeaderFieldScan::Malformed
                } else {
                    let end = v + 1 + raw[v] + 1;
                    if end > fields_end {
                        HeaderFieldScan::Malformed
                    } else {
                        spec_scan_fields(raw, endian, code, fields_end, end)
                    }
                }
            } else if fixed_size(t) > 0 {
                let end = align_up(v, fixed_size(t)) + fixed_size(t);
                proof {
                    lemma_align_up(v, fixed_size(t));
                }
                if end > fields_end {
                    HeaderFieldScan::Malformed
                } else {
                    spec_scan_fields(raw, endian, code, fields_end, end)
                }
            } else {
                HeaderFieldScan::Malformed
            }
        }
    }
}

/// Offset just past the header fields array.
pub open spec fn spec_fields_end(raw: Seq<u8>, endian: Endian) -> int {
    16 + spec_u32_at(endian, raw, 12)
}

/// The scan for field `code` over the whole header fields array.
pub open spec fn spec_find_header_field(raw: Seq<u8>, endian: Endian, code: u8) -> HeaderFieldScan {
    spec_scan_fields(raw, endian, code, spec_fields_end(raw, endian), 16)
}

/// The D-Bus STRING encoding of `bytes`: `u32` length, the bytes, a NUL.
pub open spec fn spec_dbus_string(endian: Endian, bytes: Seq<u8>) -> Seq<u8> {
    spec_u32_bytes(endian, bytes.len() as u32) + bytes + seq![0u8]
}

/// `n` zero bytes.
pub open spec fn zeros(n: int) -> Seq<u8> {
    Seq::new(n as nat, |_i: int| 0u8)
}

/// Where the fields after a rewritten field start in the old array: the
/// next 8-byte boundary after the old string, or the array's end when the
/// field was the last one.
pub open spec fn spec_rest_start(old_end: int, fields_end: int) -> int {
    if old_end >= fields_end {
        fields_end
    } else {
        align_up(old_end, 8)
    }
}

/// The zero bytes that put the fields after a rewritten string back on an
/// 8-byte boundary (none when the field was the last one).
pub open spec fn spec_gap(new_end: int, old_end: int, fields_end: int) -> int {
    if old_end >= fields_end {
        0
    } else {
        align_up(new_end, 8) - new_end
    }
}

/// The message after the string of the field found at `p` is replaced by
/// `new_str`, given the end of its old string and of the new one and the
/// new end of the array: the fixed header with the new array length, the
/// fields before, the new string, the fields after (realigned to 8 bytes),
/// padding up to an 8-byte boundary, then the body as it was.
#[verifier::opaque]
pub open spec fn spec_spliced_message(
    raw: Seq<u8>,
    endian: Endian,
    p: int,
    new_str: Seq<u8>,
    old_end: int,
    new_fields_end: int,
) -> Seq<u8> {
    let fields_end = spec_fields_end(raw, endian);
    raw.subrange(0, 12) + spec_u32_bytes(endian, (new_fields_end - 16) as u32) + raw.subrange(16, p) + new_str
        + zeros(spec_gap(p + new_str.len(), old_end, fields_end)) + raw.subrange(
        spec_rest_start(old_end, fields_end),
        fields_end,
    ) + zeros(spec_pad8(new_fields_end)) + raw.skip(spec_body_start(endian, raw))
}

/// The message bytes after replacing the string value of header field
/// `code` by `new_bytes`, as a valid message: the header fields array keeps
/// its other fields (realigned after the rewritten one), gets its new
/// length, and is padded to an 8-byte boundary again; the body is kept.
/// A message without the field is unchanged. A message whose fixed header,
/// header fields array or padding is not within its bytes, or whose array
/// does not follow the D-Bus layout up to the field, is refused as
/// malformed; a new value or array too long for a `u32` length cannot be
/// encoded.
pub open spec fn spec_rewrite_header_field(
    raw: Seq<u8>,
    endian: Endian,
    code: u8,
    new_bytes: Seq<u8>,
) -> Result<Seq<u8>, Error> {
    if raw.len() < 16 || spec_body_start(endian, raw) > raw.len() {
        Err(Error::MalformedHeader)
    } else {
        let fields_end = spec_fields_end(raw, endian);
        match spec_find_header_field(raw, endian, code) {
            HeaderFieldScan::NotFound => Ok(raw),
            HeaderFieldScan::Malformed => Err(Error::MalformedHeader),
            HeaderFieldScan::Found(p) => {
                let old_end = p + 4 + spec_u32_at(endian, raw, p) + 1;
                if old_end < fields_end && align_up(old_end, 8) > fields_end {
                    Err(Error::MalformedHeader)
                } else if new_bytes.len() > u32::MAX {
                    Err(Error::Encoding)
                } else {
                    let new_str = spec_dbus_string(endian, new_bytes);
                    let new_end = p + new_str.len();
                    let new_fields_end = new_end + spec_gap(new_end, old_end, fields_end) + (fields_end
                        - spec_rest_start(old_end, fields_end));
                    if new_fields_end - 16 > u32::MAX {
                        Err(Error::Encoding)
                    } else {
                        Ok(spec_spliced_message(raw, endian, p, new_str, old_end, new_fields_end))
                    }
                }
            },
        }
    }
}

/// Exec form of the scan result.
pub enum FieldScan {
    NotFound,
    Found(usize),
    Malformed,
}

impl FieldScan {
    pub open spec fn view(self) -> HeaderFieldScan {
        match self {
            FieldScan::NotFound => HeaderFieldScan::NotFound,
            FieldScan::Found(p) => HeaderFieldScan::Found(p as int),
            FieldScan::Malformed => HeaderFieldScan::Malformed,
        }
    }
}

fn fixed_size_of(t: u8) -> (r: u64)
    ensures
        r == fixed_size(t),
{
    if t == 121u8 {
        1
    } else if t == 110u8 || t == 113u8 {
        2
    } else if t == 98u8 || t == 105u8 || t == 117u8 || t == 104u8 {
        4
    } else if t == 120u8 || t == 116u8 || t == 100u8 {
        8
    } else {
        0
    }
}

/// Find the string value of header field `code` in the header fields array.
#[verifier::spinoff_prover]
#[verifier::rlimit(60)]
pub fn scan_header_field(raw: &[u8], endian: Endian, code: u8) -> (r: FieldScan)
    requires
        raw@.len() >= 16,
        spec_fields_end(raw@, endian) <= raw@.len(),
    ensures
        r.view() == spec_find_header_field(raw@, endian, code),
        r matches FieldScan::Found(p) ==> 16 <= p && p + 4 + spec_u32_at(endian, raw@, p as int) + 1
            <= spec_fields_end(raw@, endian),
{
    let fields_end: u64 = 16 + read_u32_at(endian, raw, 12) as u64;
    let mut pos: u64 = 16;
    while pos < fields_end
        invariant
            fields_end == spec_fields_end(raw@, endian),
            fields_end <= raw@.len(),
            fields_end <= 16 + 0xFFFF_FFFF,
            16 <= pos <= fields_end,
            spec_scan_fields(raw@, endian, code, fields_end as int, pos as int) == spec_find_header_field(
                raw@,
                endian,
                code,
            ),
        decreases fields_end - pos,
    {
        proof {
            reveal(spec_scan_fields);
            lemma_align_up(pos as int, 8);
        }
        let a: u64 = (pos + 7) / 8 * 8;
        if a + 4 > fields_end {
            return FieldScan::Malformed;
        }
        let ai = a as usize;
        if raw[(a + 1) as usize] != 1u8 || raw[(a + 3) as usize] != 0u8 {
            return FieldScan::Malformed;
        }
        let t = raw[(a + 2) as usize];
        let v: u64 = a + 4;
        if t == 115u8 || t == 111u8 {
            let p: u64 = (v + 3) / 4 * 4;
            proof {
                lemma_align_up(v as int, 4);
            }
            if p + 4 > fields_end {
                return FieldScan::Malformed;
            }
            let n = read_u32_at(endian, raw, p as usize) as u64;
            let end: u64 = p + 4 + n + 1;
            if end > fields_end {
                return FieldScan::Malformed;
            }
            if raw[ai] == code {
                return FieldScan::Found(p as usize);
            }
            pos = end;
        } else if raw[ai] == code {
            return FieldScan::Malformed;
        } else if t == 103u8 {
            if v + 1 > fields_end {
                return FieldScan::Malformed;
            }
            let end: u64 = v + 1 + raw[v as usize] as u64 + 1;
            if end > fields_end {
                return FieldScan::Malformed;
            }
            pos = end;
        } else {
            let k = fixed_size_of(t);
            if k == 0 {
                return FieldScan::Malformed;
            }
            proof {
                lemma_align_up(v as int, k as int);
            }
            let end: u64 = (v + k - 1) / k * k + k;
            if end > fields_end {
                return FieldScan::Malformed;
            }
            pos = end;
        }
    }
    proof {
        reveal(spec_scan_fields);
    }
    FieldScan::NotFound
}

/// The bytes `build_spliced` puts together are the spliced message.
proof fn lemma_spliced_form(
    raw: Seq<u8>,
    endian: Endian,
    p: int,
    new_str: Seq<u8>,
    old_end: int,
    new_fields_end: int,
    out: Seq<u8>,
)
    requires
        spec_body_start(endian, raw) <= raw.len(),
        out == raw.subrange(0, 12) + spec_u32_bytes(endian, (new_fields_end - 16) as u32) + raw.subrange(16, p)
            + new_str + zeros(spec_gap(p + new_str.len(), old_end, spec_fields_end(raw, endian))) + raw.subrange(
            spec_rest_start(old_end, spec_fields_end(raw, endian)),
            spec_fields_end(raw, endian),
        ) + zeros(spec_pad8(new_fields_end)) + raw.subrange(spec_body_start(endian, raw), raw.len() as int),
    ensures
        out == spec_spliced_message(raw, endian, p, new_str, old_end, new_fields_end),
{
    reveal(spec_spliced_message);
    assert(raw.skip(spec_body_start(endian, raw)) =~= raw.subrange(spec_body_start(endian, raw), raw.len() as int));
}

/// The fixed header with a new array length, the fields before `p`, the new
/// string, `gap` zeros, the fields from `rest_start` on, `padding` zeros,
/// and the body from `body_start`.
fn build_spliced(
    raw: &[u8],
    endian: Endian,
    p: usize,
    new_str: &[u8],
    gap: usize,
    rest_start: usize,
    fields_end: usize,
    padding: usize,
    body_start: usize,
    new_array_len: u32,
) -> (out: Vec<u8>)
    requires
        16 <= p <= raw@.len(),
        rest_start <= fields_end <= raw@.len(),
        body_start <= raw@.len(),
    ensures
        out@ == raw@.subrange(0, 12) + spec_u32_bytes(endian, new_array_len) + raw@.subrange(16, p as int) + new_str@
            + zeros(gap as int) + raw@.subrange(rest_start as int, fields_end as int) + zeros(padding as int)
            + raw@.subrange(body_start as int, raw@.len() as int),
{
    let len = raw.len();
    let mut out: Vec<u8> = Vec::new();
    append_bytes(&mut out, &raw[0..12]);
    append_bytes(&mut out, endian.u32_bytes(new_array_len).as_slice());
    append_bytes(&mut out, &raw[16..p]);
    append_bytes(&mut out, new_str);
    append_zeros(&mut out, gap);
    append_bytes(&mut out, &raw[rest_start..fields_end]);
    append_zeros(&mut out, padding);
    append_bytes(&mut out, &raw[body_start..len]);
    out
}

/// Rewrite the string value of header field `code` in the raw message
/// bytes, keeping the message valid: the fields after it are realigned,
/// the array length is updated, the padding before the body is redone and
/// the body is kept.
///
/// Header field codes: 1 PATH, 2 INTERFACE, 3 MEMBER, 4 ERROR_NAME,
/// 5 REPLY_SERIAL, 6 DESTINATION, 7 SENDER, 8 SIGNATURE, 9 UNIX_FDS.
/// A message without the field is left unchanged.
#[verifier::spinoff_prover]
#[verifier::rlimit(80)]
pub fn rewrite_header_field(raw: &mut Vec<u8>, endian: Endian, field_code: u8, new_value: &str) -> (r: Result<(), Error>)
    ensures
        match spec_rewrite_header_field(old(raw)@, endian, field_code, new_value.spec_bytes()) {
            Ok(b) => r is Ok && final(raw)@ == b,
            Err(e) => r == Err::<(), Error>(e) && final(raw)@ == old(raw)@,
        },
{
    let len = raw.len();
    if len < 16 {
        return Err(Error::MalformedHeader);
    }
    let fields_end: u64 = 16 + read_u32_at(endian, raw.as_slice(), 12) as u64;
    let body_start: u64 = fields_end + (8 - fields_end % 8) % 8;
    if body_start > len as u64 {
        return Err(Error::MalformedHeader);
    }
    let pos = match scan_header_field(raw.as_slice(), endian, field_code) {
        FieldScan::Found(p) => p,
        FieldScan::NotFound => return Ok(()),
        FieldScan::Malformed => return Err(Error::MalformedHeader),
    };
    let p = pos as u64;
    let old_len = read_u32_at(endian, raw.as_slice(), pos) as u64;
    let old_end: u64 = p + 4 + old_len + 1;
    let last = old_end >= fields_end;
    proof {
        lemma_align_up(old_end as int, 8);
    }
    if !last && (old_end + 7) / 8 * 8 > fields_end {
        return Err(Error::MalformedHeader);
    }
    let bytes = new_value.as_bytes();
    if bytes.len() as u64 > 0xFFFF_FFFF {
        return Err(Error::Encoding);
    }
    let new_end: u64 = p + 4 + bytes.len() as u64 + 1;
    proof {
        lemma_align_up(new_end as int, 8);
    }
    let rest_start: u64 = if last { fields_end } else { (old_end + 7) / 8 * 8 };
    let gap: u64 = if last { 0 } else { (new_end + 7) / 8 * 8 - new_end };
    let new_fields_end: u64 = new_end + gap + (fields_end - rest_start);
    if new_fields_end - 16 > 0xFFFF_FFFF {
        return Err(Error::Encoding);
    }
    let mut new_str: Vec<u8> = endian.u32_bytes(bytes.len() as u32);
    append_bytes(&mut new_str, bytes);
    new_str.push(0u8);
    assert(new_str@ =~= spec_dbus_string(endian, new_value.spec_bytes()));
    let padding: u64 = (8 - new_fields_end % 8) % 8;
    let out = build_spliced(
        raw.as_slice(),
        endian,
        pos,
        new_str.as_slice(),
        gap as usize,
        rest_start as usize,
        fields_end as usize,
        padding as usize,
        body_start as usize,
        (new_fields_end - 16) as u32,
    );
    proof {
        lemma_spliced_form(
            old(raw)@,
            endian,
            p as int,
            new_str@,
            old_end as int,
            new_fields_end as int,
            out@,
        );
    }
    *raw = out;
    Ok(())
}

/// A field found by the scan from `pos` lies after `pos`, with its whole
/// string within the array.
proof fn lemma_found_within(raw: Seq<u8>, endian: Endian, code: u8, fields_end: int, pos: int)
    requires
        pos >= 0,
    ensures
        spec_scan_fields(raw, endian, code, fields_end, pos) matches HeaderFieldScan::Found(p) ==> pos <= p && p + 4
            + spec_u32_at(endian, raw, p) + 1 <= fields_end,
    decreases fields_end - pos,
{
    reveal(spec_scan_fields);
    if pos < fields_end {
        let a = align_up(pos, 8);
        lemma_align_up(pos, 8);
        let v = a + 4;
        let t = raw[a + 2];
        lemma_align_up(v, 4);
        let p = align_up(v, 4);
        let end_s = p + 4 + spec_u32_at(endian, raw, p) + 1;
        if end_s <= fields_end {
            lemma_found_within(raw, endian, code, fields_end, end_s);
        }
        let end_g = v + 1 + raw[v] + 1;
        if end_g <= fields_end {
            lemma_found_within(raw, endian, code, fields_end, end_g);
        }
        if fixed_size(t) > 0 {
            lemma_align_up(v, fixed_size(t));
            let end_f = align_up(v, fixed_size(t)) + fixed_size(t);
            if end_f <= fields_end {
                lemma_found_within(raw, endian, code, fields_end, end_f);
            }
        }
    }
}

/// The layout of a spliced message: fixed header and body kept, the body
/// after the new array padded to 8 bytes, the new string at `p`.
#[verifier::spinoff_prover]
#[verifier::rlimit(40)]
proof fn lemma_spliced_layout(raw: Seq<u8>, endian: Endian, p: int, new_bytes: Seq<u8>, b: Seq<u8>)
    requires
        16 <= p,
        p + 4 + spec_u32_at(endian, raw, p) + 1 <= spec_fields_end(raw, endian),
        spec_body_start(endian, raw) <= raw.len(),
        new_bytes.len() <= u32::MAX,
        ({
            let fe = spec_fields_end(raw, endian);
            let old_end = p + 4 + spec_u32_at(endian, raw, p) + 1;
            let new_end = p + spec_dbus_string(endian, new_bytes).len();
            let new_fe = new_end + spec_gap(new_end, old_end, fe) + (fe - spec_rest_start(old_end, fe));
            &&& !(old_end < fe && align_up(old_end, 8) > fe)
            &&& new_fe - 16 <= u32::MAX
            &&& b == spec_spliced_message(raw, endian, p, spec_dbus_string(endian, new_bytes), old_end, new_fe)
        }),
    ensures
        b.len() >= 16,
        b.subrange(0, 12) == raw.subrange(0, 12),
        spec_body_start(endian, b) <= b.len(),
        b.skip(spec_body_start(endian, b)) == raw.skip(spec_body_start(endian, raw)),
        spec_u32_at(endian, b, p) == new_bytes.len(),
        b.subrange(p + 4, p + 4 + new_bytes.len()) == new_bytes,
{
    reveal(spec_spliced_message);
    let fe = spec_fields_end(raw, endian);
    let bs = spec_body_start(endian, raw);
    let old_end = p + 4 + spec_u32_at(endian, raw, p) + 1;
    let new_str = spec_dbus_string(endian, new_bytes);
    let new_end = p + new_str.len();
    let gap = spec_gap(new_end, old_end, fe);
    let rs = spec_rest_start(old_end, fe);
    lemma_align_up(old_end, 8);
    lemma_align_up(new_end, 8);
    let new_fe = new_end + gap + (fe - rs);
    let n = (new_fe - 16) as u32;
    law_u32_roundtrip(endian, n);
    law_u32_roundtrip(endian, new_bytes.len() as u32);
    let lb = spec_u32_bytes(endian, n);
    let pre = raw.subrange(0, 12) + lb + raw.subrange(16, p);
    assert(pre.len() == p);
    let tail = zeros(gap) + raw.subrange(rs, fe) + zeros(spec_pad8(new_fe)) + raw.skip(bs);
    assert(b =~= pre + new_str + tail);
    assert(b[12] == lb[0] && b[13] == lb[1] && b[14] == lb[2] && b[15] == lb[3]);
    assert(spec_u32_at(endian, b, 12) == n);
    assert(spec_fields_end(b, endian) == new_fe);
    assert(b.subrange(p, p + new_str.len()) =~= new_str);
    let sb = spec_u32_bytes(endian, new_bytes.len() as u32);
    assert(b[p] == sb[0] && b[p + 1] == sb[1] && b[p + 2] == sb[2] && b[p + 3] == sb[3]);
    assert(b.subrange(p + 4, p + 4 + new_bytes.len()) =~= new_bytes);
    assert(b.subrange(0, 12) =~= raw.subrange(0, 12));
    assert(b.skip(new_fe + spec_pad8(new_fe)) =~= raw.skip(bs));
}

/// A rewritten header field leaves a valid message: the fixed header and
/// the body are kept, the body again starts where the new header fields
/// array, padded to 8 bytes, ends, and the field's string reads back as the
/// new value.
#[verifier::spinoff_prover]
#[verifier::rlimit(40)]
pub proof fn law_rewrite_keeps_body(raw: Seq<u8>, endian: Endian, code: u8, new_bytes: Seq<u8>, b: Seq<u8>)
    requires
        spec_rewrite_header_field(raw, endian, code, new_bytes) == Ok::<Seq<u8>, Error>(b),
    ensures
        b.len() >= 16,
        b.subrange(0, 12) == raw.subrange(0, 12),
        spec_body_start(endian, b) <= b.len(),
        spec_body_start(endian, b) % 8 == 0,
        b.skip(spec_body_start(endian, b)) == raw.skip(spec_body_start(endian, raw)),
        spec_find_header_field(raw, endian, code) matches HeaderFieldScan::Found(p) ==> {
            &&& spec_u32_at(endian, b, p) == new_bytes.len()
            &&& b.subrange(p + 4, p + 4 + new_bytes.len()) == new_bytes
        },
{
    let fe = spec_fields_end(raw, endian);
    lemma_found_within(raw, endian, code, fe, 16);
    match spec_find_header_field(raw, endian, code) {
        HeaderFieldScan::Found(p) => {
            lemma_spliced_layout(raw, endian, p, new_bytes, b);
        },
        _ => {},
    }
    let fb = spec_fields_end(b, endian);
    assert((fb + spec_pad8(fb)) % 8 == 0);
}

/// Direction of message flow for rewriting.
#[derive(Debug, Clone, Copy, PartialEq, Eq, Structural)]
pub enum RewriteDirection {
    /// Message going from upstream bus to client (add fake prefix to the sender).
    ToClient,
    /// Message going from client to upstream bus (remove fake prefix from the destination).
    ToUpstream,
}

/// The header field a rewrite in `direction` touches: SENDER (7) towards
/// the client, DESTINATION (6) towards a bus.
pub open spec fn rewritten_field_code(direction: RewriteDirection) -> u8 {
    match direction {
        RewriteDirection::ToClient => 7,
        RewriteDirection::ToUpstream => 6,
    }
}

/// The new value of the rewritten header field, when there is one: towards
/// the client a sender that is a unique name gets the prefix of the source
/// bus; towards a bus a fake unique destination loses its prefix.
pub open spec fn spec_header_rewrite_value(
    header: MessageHeader,
    direction: RewriteDirection,
    source_bus: Bus,
) -> Option<Seq<char>> {
    match direction {
        RewriteDirection::ToClient => match header.sender {
            Some(s) => if spec_to_fake_name(s@, source_bus) != s@ {
                Some(spec_to_fake_name(s@, source_bus))
            } else {
                None
            },
            None => None,
        },
        RewriteDirection::ToUpstream => match header.destination {
            Some(d) => match spec_from_fake_name(d@) {
                Some((real_name, _)) => Some(real_name),
                None => None,
            },
            None => None,
        },
    }
}

/// Rewrite a message's header fields (sender, destination) for fake name
/// transformation, in the raw bytes and in the parsed header alike.
///
/// Towards the client the sender gets the prefix of `source_bus`; towards
/// a bus a fake destination is turned back into the real unique name.
pub fn rewrite_message_header(msg: &mut Message, direction: RewriteDirection, source_bus: Bus) -> (r: Result<(), Error>)
    ensures
        match spec_header_rewrite_value(old(msg).header, direction, source_bus) {
            None => r is Ok && final(msg).header == old(msg).header && final(msg).raw@ == old(msg).raw@,
            Some(v) => match spec_rewrite_header_field(
                old(msg).raw@,
                old(msg).header.endian,
                rewritten_field_code(direction),
                encode_utf8(v),
            ) {
                Ok(b) => {
                    &&& r is Ok
                    &&& final(msg).raw@ == b
                    &&& direction == RewriteDirection::ToClient ==> spec_opt_is(final(msg).header.sender, v)
                    &&& direction == RewriteDirection::ToUpstream ==> spec_opt_is(final(msg).header.destination, v)
                    &&& final(msg).header.endian == old(msg).header.endian
                    &&& final(msg).header.msg_type == old(msg).header.msg_type
                    &&& final(msg).header.serial == old(msg).header.serial
                    &&& final(msg).header.reply_serial == old(msg).header.reply_serial
                    &&& final(msg).header.member == old(msg).header.member
                    &&& final(msg).header.interface == old(msg).header.interface
                    &&& final(msg).header.flags == old(msg).header.flags
                    &&& final(msg).header.body_len == old(msg).header.body_len
                    &&& final(msg).header.path == old(msg).header.path
                    &&& final(msg).header.signature == old(msg).header.signature
                    &&& final(msg).header.unix_fds == old(msg).header.unix_fds
                    &&& direction == RewriteDirection::ToClient ==> final(msg).header.destination == old(msg).header.destination
                    &&& direction == RewriteDirection::ToUpstream ==> final(msg).header.sender == old(msg).header.sender
                },
                Err(e) => r == Err::<(), Error>(e) && final(msg).header == old(msg).header
                    && final(msg).raw@ == old(msg).raw@,
            },
        },
{
    let endian = msg.header.endian;
    match direction {
        RewriteDirection::ToClient => {
            let fake_sender = match &msg.header.sender {
                Some(sender) => {
                    let fake = to_fake_name(sender.as_str(), source_bus);
                    if fake == *sender {
                        return Ok(());
                    }
                    fake
                },
                None => return Ok(()),
            };
            rewrite_header_field(&mut msg.raw, endian, 7, fake_sender.as_str())?;
            msg.header.sender = Some(fake_sender);
        },
        RewriteDirection::ToUpstream => {
            let real_dest = match &msg.header.destination {
                Some(dest) => match from_fake_name(dest.as_str()) {
                    Some((real_dest, _bus)) => real_dest,
                    None => return Ok(()),
                },
                None => return Ok(()),
            };
            rewrite_header_field(&mut msg.raw, endian, 6, real_dest.as_str())?;
            msg.header.destination = Some(real_dest);
        },
    }
    Ok(())
}

/// The name under which the client sees a peer is turned back into the
/// peer's real name when the client addresses it: a unique sender is
/// rewritten towards the client to its fake name, and a message of the
/// client to that fake name is rewritten towards the bus to the real one.
pub proof fn law_sender_prefix_undone_on_reply(
    from_peer: MessageHeader,
    to_peer: MessageHeader,
    source_bus: Bus,
    target_bus: Bus,
)
    requires
        from_peer.sender matches Some(s) && spec_is_unique_name(s@),
        opt_view(to_peer.destination) == Some(spec_to_fake_name(from_peer.sender.unwrap()@, source_bus)),
    ensures
        spec_header_rewrite_value(from_peer, RewriteDirection::ToClient, source_bus) == Some(
            spec_to_fake_name(from_peer.sender.unwrap()@, source_bus),
        ),
        spec_header_rewrite_value(to_peer, RewriteDirection::ToUpstream, target_bus) == Some(
            from_peer.sender.unwrap()@,
        ),
{
    let s = from_peer.sender.unwrap()@;
    law_fake_name_roundtrip(s, source_bus);
    assert(spec_to_fake_name(s, source_bus).len() == s.len() + 2);
}

/// Information about how to rewrite body content for specific D-Bus methods.
#[derive(Debug)]
pub struct BodyRewriteInfo {
    /// Positions in the body that contain unique names (as strings)
    pub unique_name_positions: Vec<BodyFieldPosition>,
    /// Whether the first body argument is a match rule string that needs parsing
    pub has_match_rule: bool,
}

/// Where in a body unique names are found.
#[derive(Debug, Clone, Copy, PartialEq, Eq, Structural)]
pub enum BodyFieldPosition {
    /// Simple string at given offset
    StringAt(usize),
    /// Array of strings starting at given offset
    StringArray(usize),
}

/// The body rewrite of a bus daemon method: the unique name positions and
/// whether the body is a match rule. `Hello` and `GetNameOwner` return one
/// unique name; `ListNames`, `ListActivatableNames` and `ListQueuedOwners`
/// an array of names; the credential queries take one unique name;
/// `AddMatch` and `RemoveMatch` take a match rule.
pub open spec fn spec_dbus_method_rewrite_info(member: Seq<char>) -> Option<(Seq<BodyFieldPosition>, bool)> {
    if member == "Hello"@ || member == "GetNameOwner"@ {
        Some((seq![BodyFieldPosition::StringAt(0)], false))
    } else if member == "ListNames"@ || member == "ListActivatableNames"@ || member == "ListQueuedOwners"@ {
        Some((seq![BodyFieldPosition::StringArray(0)], false))
    } else if member == "AddMatch"@ || member == "RemoveMatch"@ {
        Some((Seq::<BodyFieldPosition>::empty(), true))
    } else if member == "GetConnectionCredentials"@ || member == "GetConnectionUnixUser"@
        || member == "GetConnectionUnixProcessID"@ {
        Some((seq![BodyFieldPosition::StringAt(0)], false))
    } else {
        None
    }
}

/// Get rewrite information for org.freedesktop.DBus methods.
pub fn get_dbus_method_rewrite_info(member: &str) -> (r: Option<BodyRewriteInfo>)
    ensures
        match r {
            Some(info) => spec_dbus_method_rewrite_info(member@) == Some(
                (info.unique_name_positions@, info.has_match_rule),
            ),
            None => spec_dbus_method_rewrite_info(member@) is None,
        },
{
    if str_eq(member, "Hello") || str_eq(member, "GetNameOwner") {
        Some(BodyRewriteInfo { unique_name_positions: vec![BodyFieldPosition::StringAt(0)], has_match_rule: false })
    } else if str_eq(member, "ListNames") || str_eq(member, "ListActivatableNames") || str_eq(
        member,
        "ListQueuedOwners",
    ) {
        Some(BodyRewriteInfo { unique_name_positions: vec![BodyFieldPosition::StringArray(0)], has_match_rule: false })
    } else if str_eq(member, "AddMatch") || str_eq(member, "RemoveMatch") {
        let v: Vec<BodyFieldPosition> = Vec::new();
        assert(v@ =~= Seq::<BodyFieldPosition>::empty());
        Some(BodyRewriteInfo { unique_name_positions: v, has_match_rule: true })
    } else if str_eq(member, "GetConnectionCredentials") || str_eq(member, "GetConnectionUnixUser")
        || str_eq(member, "GetConnectionUnixProcessID") {
        Some(BodyRewriteInfo { unique_name_positions: vec![BodyFieldPosition::StringAt(0)], has_match_rule: false })
    } else {
        None
    }
}

/// The sender named by one comma-separated part of a match rule: the part,
/// trimmed, is `sender='X'` (giving `X`) or else `sender=Y` (giving `Y`,
/// quotes and all).
pub open spec fn spec_part_sender(part: Seq<char>) -> Option<Seq<char>> {
    let p = spec_trim(part, ws());
    let quoted = match spec_strip_prefix(p, "sender='"@) {
        Some(v) => spec_strip_suffix(v, "'"@),
        None => None,
    };
    match quoted {
        Some(v) => Some(v),
        None => spec_strip_prefix(p, "sender="@),
    }
}

/// The sender named by the first part, in order, that names one.
pub open spec fn spec_first_sender(parts: Seq<Seq<char>>) -> Option<Seq<char>>
    decreases parts.len(),
{
    if parts.len() == 0 {
        None
    } else {
        match spec_part_sender(parts[0]) {
            Some(v) => Some(v),
            None => spec_first_sender(parts.drop_first()),
        }
    }
}

/// The sender of a match rule.
pub open spec fn spec_match_rule_sender(rule: Seq<char>) -> Option<Seq<char>> {
    spec_first_sender(spec_split(rule, ','))
}

/// Parse a D-Bus match rule string and extract the sender field.
pub fn parse_match_rule_sender(rule: &str) -> (r: Option<String>)
    ensures
        opt_view(r) == spec_match_rule_sender(rule@),
{
    let parts = split_chars(&chars_of(rule), ',');
    let quoted_prefix = chars_of("sender='");
    let quote = chars_of("'");
    let plain_prefix = chars_of("sender=");
    let ghost all = views_of(parts@);
    let mut i: usize = 0;
    assert(all.skip(0) =~= all);
    while i < parts.len()
        invariant
            i <= parts@.len(),
            all == views_of(parts@),
            all == spec_split(rule@, ','),
            quoted_prefix@ == "sender='"@,
            quote@ == "'"@,
            plain_prefix@ == "sender="@,
            spec_first_sender(all.skip(i as int)) == spec_first_sender(all),
        decreases parts.len() - i,
    {
        assert(all.skip(i as int).drop_first() =~= all.skip(i + 1));
        assert(all.skip(i as int)[0] == parts@[i as int]@);
        let part = trim_chars(&parts[i]);
        if let Some(value) = strip_prefix_chars(&part, &quoted_prefix) {
            if let Some(value) = strip_suffix_chars(&value, &quote) {
                return Some(string_of(value.as_slice()));
            }
        }
        if let Some(value) = strip_prefix_chars(&part, &plain_prefix) {
            return Some(string_of(value.as_slice()));
        }
        i = i + 1;
    }
    None
}

/// The match rule with every `sender='old'` replaced by `sender='new'`.
pub open spec fn spec_rewrite_match_rule_sender(rule: Seq<char>, old_sender: Seq<char>, new_sender: Seq<char>) -> Seq<char> {
    spec_replace(
        rule,
        "sender='"@ + old_sender + "'"@,
        "sender='"@ + new_sender + "'"@,
    )
}

/// Rewrite the sender field in a match rule string.
pub fn rewrite_match_rule_sender(rule: &str, old_sender: &str, new_sender: &str) -> (r: String)
    ensures
        r@ == spec_rewrite_match_rule_sender(rule@, old_sender@, new_sender@),
{
    let open = chars_of("sender='");
    let close = chars_of("'");
    let old_pattern = concat_chars(&concat_chars(&open, &chars_of(old_sender)), &close);
    let new_pattern = concat_chars(&concat_chars(&open, &chars_of(new_sender)), &close);
    proof {
        reveal_strlit("sender='");
    }
    assert(old_pattern@.len() > 0);
    let out = replace_chars(&chars_of(rule), &old_pattern, &new_pattern);
    string_of(out.as_slice())
}

/// The interface named by one part of a match rule: `interface='X'`.
pub open spec fn spec_part_interface(part: Seq<char>) -> Option<Seq<char>> {
    match spec_strip_prefix(spec_trim(part, ws()), "interface='"@) {
        Some(v) => spec_strip_suffix(v, "'"@),
        None => None,
    }
}

/// The interface named by the first part, in order, that names one.
pub open spec fn spec_first_interface(parts: Seq<Seq<char>>) -> Option<Seq<char>>
    decreases parts.len(),
{
    if parts.len() == 0 {
        None
    } else {
        match spec_part_interface(parts[0]) {
            Some(v) => Some(v),
            None => spec_first_interface(parts.drop_first()),
        }
    }
}

/// Parse a D-Bus match rule string and extract the interface field.
pub fn parse_match_rule_interface(rule: &str) -> (r: Option<String>)
    ensures
        opt_view(r) == spec_first_interface(spec_split(rule@, ',')),
{
    let parts = split_chars(&chars_of(rule), ',');
    let prefix = chars_of("interface='");
    let quote = chars_of("'");
    let ghost all = views_of(parts@);
    let mut i: usize = 0;
    assert(all.skip(0) =~= all);
    while i < parts.len()
        invariant
            i <= parts@.len(),
            all == views_of(parts@),
            all == spec_split(rule@, ','),
            prefix@ == "interface='"@,
            quote@ == "'"@,
            spec_first_interface(all.skip(i as int)) == spec_first_interface(all),
        decreases parts.len() - i,
    {
        assert(all.skip(i as int).drop_first() =~= all.skip(i + 1));
        assert(all.skip(i as int)[0] == parts@[i as int]@);
        let part = trim_chars(&parts[i]);
        if let Some(value) = strip_prefix_chars(&part, &prefix) {
            if let Some(value) = strip_suffix_chars(&value, &quote) {
                return Some(string_of(value.as_slice()));
            }
        }
        i = i + 1;
    }
    None
}

/// Information extracted from a match rule for routing decisions.
#[derive(Debug, Default)]
pub struct MatchRuleInfo {
    pub sender: Option<String>,
    pub interface: Option<String>,
    pub member: Option<String>,
    pub path: Option<String>,
    pub path_namespace: Option<String>,
    pub destination: Option<String>,
    pub msg_type: Option<String>,
}

/// The keys of a match rule the router reads, as mathematical values.
pub struct MatchRuleView {
    pub sender: Option<Seq<char>>,
    pub interface: Option<Seq<char>>,
    pub member: Option<Seq<char>>,
    pub path: Option<Seq<char>>,
    pub path_namespace: Option<Seq<char>>,
    pub destination: Option<Seq<char>>,
    pub msg_type: Option<Seq<char>>,
}

impl MatchRuleInfo {
    pub open spec fn view(&self) -> MatchRuleView {
        MatchRuleView {
            sender: opt_view(self.sender),
            interface: opt_view(self.interface),
            member: opt_view(self.member),
            path: opt_view(self.path),
            path_namespace: opt_view(self.path_namespace),
            destination: opt_view(self.destination),
            msg_type: opt_view(self.msg_type),
        }
    }
}

/// One `key=value` part applied to what the earlier parts gave: the value,
/// with its surrounding quotes trimmed, is stored under its key when the
/// key is one the router reads.
pub open spec fn spec_apply_rule_part(acc: MatchRuleView, part: Seq<char>) -> MatchRuleView {
    match spec_split_once(spec_trim(part, ws()), '=') {
        Some((key, raw_value)) => {
            let value = Some(spec_trim(raw_value, is_char('\'')));
            if key == "sender"@ {
                MatchRuleView { sender: value, ..acc }
            } else if key == "interface"@ {
                MatchRuleView { interface: value, ..acc }
            } else if key == "member"@ {
                MatchRuleView { member: value, ..acc }
            } else if key == "path"@ {
                MatchRuleView { path: value, ..acc }
            } else if key == "path_namespace"@ {
                MatchRuleView { path_namespace: value, ..acc }
            } else if key == "destination"@ {
                MatchRuleView { destination: value, ..acc }
            } else if key == "type"@ {
                MatchRuleView { msg_type: value, ..acc }
            } else {
                acc
            }
        },
        None => acc,
    }
}

/// No key set.
pub open spec fn empty_rule_view() -> MatchRuleView {
    MatchRuleView {
        sender: None,
        interface: None,
        member: None,
        path: None,
        path_namespace: None,
        destination: None,
        msg_type: None,
    }
}

/// All parts applied in order; a later key overrides an earlier one.
pub open spec fn spec_fold_rule_parts(parts: Seq<Seq<char>>) -> MatchRuleView
    decreases parts.len(),
{
    if parts.len() == 0 {
        empty_rule_view()
    } else {
        spec_apply_rule_part(spec_fold_rule_parts(parts.drop_last()), parts.last())
    }
}

/// The keys of a complete match rule string.
pub open spec fn spec_parse_match_rule(rule: Seq<char>) -> MatchRuleView {
    spec_fold_rule_parts(spec_split(rule, ','))
}

impl MatchRuleInfo {
    fn apply_part(&mut self, part: &Vec<char>)
        ensures
            final(self)@ == spec_apply_rule_part(old(self)@, part@),
    {
        let trimmed = trim_chars(part);
        let (key, raw_value) = match split_once_chars(&trimmed, '=') {
            Some(kv) => kv,
            None => return,
        };
        let value = Some(string_of(trim_char_chars(&raw_value, '\'').as_slice()));
        let key_str = string_of(key.as_slice());
        let k = key_str.as_str();
        if str_eq(k, "sender") {
            self.sender = value;
        } else if str_eq(k, "interface") {
            self.interface = value;
        } else if str_eq(k, "member") {
            self.member = value;
        } else if str_eq(k, "path") {
            self.path = value;
        } else if str_eq(k, "path_namespace") {
            self.path_namespace = value;
        } else if str_eq(k, "destination") {
            self.destination = value;
        } else if str_eq(k, "type") {
            self.msg_type = value;
        }
    }
}

/// Parse a complete match rule string.
pub fn parse_match_rule(rule: &str) -> (r: MatchRuleInfo)
    ensures
        r@ == spec_parse_match_rule(rule@),
{
    let mut info = MatchRuleInfo {
        sender: None,
        interface: None,
        member: None,
        path: None,
        path_namespace: None,
        destination: None,
        msg_type: None,
    };
    let parts = split_chars(&chars_of(rule), ',');
    let ghost all = views_of(parts@);
    let mut i: usize = 0;
    while i < parts.len()
        invariant
            i <= parts@.len(),
            all == views_of(parts@),
            all == spec_split(rule@, ','),
            info@ == spec_fold_rule_parts(all.take(i as int)),
        decreases parts.len() - i,
    {
        assert(all.take(i + 1).drop_last() =~= all.take(i as int));
        assert(all.take(i + 1).last() == parts@[i as int]@);
        info.apply_part(&parts[i]);
        i = i + 1;
    }
    assert(all.take(parts@.len() as int) =~= all);
    info
}

} // verus!
