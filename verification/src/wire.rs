//! Byte-level building blocks of the D-Bus wire format: byte order, `u32`
//! fields and 8-byte alignment.

use vstd::prelude::*;

verus! {

/// Byte order of a D-Bus message.
#[derive(Debug, Clone, Copy, PartialEq, Eq, Structural)]
pub enum Endian {
    Little,
    Big,
}

/// The value of four bytes read as a `u32` in the given byte order.
pub open spec fn spec_u32_of(endian: Endian, b0: u8, b1: u8, b2: u8, b3: u8) -> u32 {
    match endian {
        Endian::Little => (b0 + 256 * b1 + 65536 * b2 + 16777216 * b3) as u32,
        Endian::Big => (b3 + 256 * b2 + 65536 * b1 + 16777216 * b0) as u32,
    }
}

/// The `u32` stored in the first four bytes of `s`.
pub open spec fn spec_read_u32(endian: Endian, s: Seq<u8>) -> u32 {
    spec_u32_of(endian, s[0], s[1], s[2], s[3])
}

/// The `u32` stored at offset `pos` of `s`.
pub open spec fn spec_u32_at(endian: Endian, s: Seq<u8>, pos: int) -> u32 {
    spec_u32_of(endian, s[pos], s[pos + 1], s[pos + 2], s[pos + 3])
}

/// The four bytes that encode `n` in the given byte order.
pub open spec fn spec_u32_bytes(endian: Endian, n: u32) -> Seq<u8> {
    let l0 = (n % 256) as u8;
    let l1 = (n / 256 % 256) as u8;
    let l2 = (n / 65536 % 256) as u8;
    let l3 = (n / 16777216) as u8;
    match endian {
        Endian::Little => seq![l0, l1, l2, l3],
        Endian::Big => seq![l3, l2, l1, l0],
    }
}

/// Round `n` up to a multiple of `a`.
pub open spec fn align_up(n: int, a: int) -> int {
    (n + a - 1) / a * a
}

/// Rounding up to a multiple of a positive number never goes down, and by
/// less than that number.
pub proof fn lemma_align_up(n: int, a: int)
    requires
        a > 0,
        n >= 0,
    ensures
        n <= align_up(n, a) < n + a,
        align_up(n, a) % a == 0,
{
    assert(n <= (n + a - 1) / a * a < n + a) by (nonlinear_arith)
        requires
            a > 0,
            n >= 0,
    {
    }
    assert(((n + a - 1) / a * a) % a == 0) by (nonlinear_arith)
        requires
            a > 0,
    {
    }
}

/// Padding that brings `n` up to a multiple of 8.
pub open spec fn spec_pad8(n: int) -> int {
    (8 - (n % 8)) % 8
}

impl Endian {
    /// Read a `u32` from the first four bytes of a buffer.
    pub fn read_u32(&self, buf: &[u8]) -> (r: u32)
        requires
            buf@.len() >= 4,
        ensures
            r == spec_read_u32(*self, buf@),
    {
        let b0 = buf[0] as u32;
        let b1 = buf[1] as u32;
        let b2 = buf[2] as u32;
        let b3 = buf[3] as u32;
        match self {
            Endian::Little => b0 + 256 * b1 + 65536 * b2 + 16777216 * b3,
            Endian::Big => b3 + 256 * b2 + 65536 * b1 + 16777216 * b0,
        }
    }

    /// The four bytes encoding `n` in this byte order.
    pub fn u32_bytes(&self, n: u32) -> (r: Vec<u8>)
        ensures
            r@ == spec_u32_bytes(*self, n),
    {
        let l0 = (n % 256) as u8;
        let l1 = (n / 256 % 256) as u8;
        let l2 = (n / 65536 % 256) as u8;
        let l3 = (n / 16777216) as u8;
        match self {
            Endian::Little => vec![l0, l1, l2, l3],
            Endian::Big => vec![l3, l2, l1, l0],
        }
    }
}

/// Read the `u32` at offset `pos` of `buf`.
pub fn read_u32_at(endian: Endian, buf: &[u8], pos: usize) -> (r: u32)
    requires
        pos + 4 <= buf@.len(),
    ensures
        r == spec_u32_at(endian, buf@, pos as int),
{
    let len = buf.len();
    assert(pos + 4 <= len);
    let s = &buf[pos..pos + 4];
    endian.read_u32(s)
}

/// Encoding a `u32` and reading it back gives the same number.
pub proof fn law_u32_roundtrip(endian: Endian, n: u32)
    ensures
        spec_read_u32(endian, spec_u32_bytes(endian, n)) == n,
{
    let l0 = n % 256;
    let l1 = n / 256 % 256;
    let l2 = n / 65536 % 256;
    let l3 = n / 16777216;
    assert(l0 + 256 * l1 + 65536 * l2 + 16777216 * l3 == n) by (nonlinear_arith)
        requires
            l0 == n % 256,
            l1 == n / 256 % 256,
            l2 == n / 65536 % 256,
            l3 == n / 16777216,
            n < 0x1_0000_0000,
    {
    }
}

/// Append the bytes of `src` to `dst`.
pub fn append_bytes(dst: &mut Vec<u8>, src: &[u8])
    ensures
        final(dst)@ == old(dst)@ + src@,
{
    let mut i: usize = 0;
    while i < src.len()
        invariant
            i <= src@.len(),
            dst@ == old(dst)@ + src@.subrange(0, i as int),
        decreases src.len() - i,
    {
        dst.push(src[i]);
        i = i + 1;
        assert(dst@ =~= old(dst)@ + src@.subrange(0, i as int));
    }
    assert(src@.subrange(0, src@.len() as int) =~= src@);
}

/// Append `n` zero bytes to `dst`.
pub fn append_zeros(dst: &mut Vec<u8>, n: usize)
    ensures
        final(dst)@ == old(dst)@ + Seq::new(n as nat, |_i: int| 0u8),
{
    let mut i: usize = 0;
    while i < n
        invariant
            i <= n,
            dst@ == old(dst)@ + Seq::new(i as nat, |_i: int| 0u8),
        decreases n - i,
    {
        dst.push(0u8);
        i = i + 1;
        assert(dst@ =~= old(dst)@ + Seq::new(i as nat, |_i: int| 0u8));
    }
}

/// Copy of `buf[start..end]`.
pub fn copy_range(buf: &[u8], start: usize, end: usize) -> (r: Vec<u8>)
    requires
        start <= end <= buf@.len(),
    ensures
        r@ == buf@.subrange(start as int, end as int),
{
    let mut r: Vec<u8> = Vec::new();
    append_bytes(&mut r, &buf[start..end]);
    r
}

} // verus!
