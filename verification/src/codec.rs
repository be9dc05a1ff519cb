//! The byte format shared by the stored record and the instruction payload:
//! unsigned 32-bit little-endian length prefixes followed by the raw bytes of
//! the string.

use vstd::prelude::*;

verus! {

/// The value of the four little-endian bytes of `b` starting at `i`.
pub open spec fn le32_at(b: Seq<u8>, i: int) -> u32
    recommends
        0 <= i,
        i + 4 <= b.len(),
{
    (b[i] as u32) | ((b[i + 1] as u32) << 8) | ((b[i + 2] as u32) << 16) | ((b[i + 3] as u32)
        << 24)
}

/// The four little-endian bytes of `n`.
pub open spec fn spec_le32(n: u32) -> Seq<u8> {
    seq![
        (n & 0xff) as u8,
        ((n >> 8) & 0xff) as u8,
        ((n >> 16) & 0xff) as u8,
        ((n >> 24) & 0xff) as u8,
    ]
}

/// A length-prefixed string: four length bytes, then the bytes themselves.
pub open spec fn spec_encode_str(s: Seq<u8>) -> Seq<u8>
    recommends
        s.len() < 0x1_0000_0000,
{
    spec_le32(s.len() as u32) + s
}

/// Reading a length-prefixed string from `b` at offset `i`: the string's bytes
/// and the offset just past them, or nothing where the prefix or the declared
/// bytes overrun the buffer.
pub open spec fn spec_parse_str(b: Seq<u8>, i: int) -> Option<(Seq<u8>, int)>
    recommends
        0 <= i <= b.len(),
{
    if i + 4 > b.len() {
        None
    } else {
        let n = le32_at(b, i) as int;
        if i + 4 + n > b.len() {
            None
        } else {
            Some((b.subrange(i + 4, i + 4 + n), i + 4 + n))
        }
    }
}

/// Four little-endian bytes read back give the value they were made from.
pub proof fn lemma_le32_roundtrip(b: Seq<u8>, i: int, n: u32)
    requires
        0 <= i,
        i + 4 <= b.len(),
        b[i] == spec_le32(n)[0],
        b[i + 1] == spec_le32(n)[1],
        b[i + 2] == spec_le32(n)[2],
        b[i + 3] == spec_le32(n)[3],
    ensures
        le32_at(b, i) == n,
{
    assert((((n & 0xff) as u8) as u32) | (((((n >> 8) & 0xff) as u8) as u32) << 8) | (((((n >> 16)
        & 0xff) as u8) as u32) << 16) | (((((n >> 24) & 0xff) as u8) as u32) << 24) == n)
        by (bit_vector);
}

/// An encoded string surrounded by arbitrary bytes parses back to itself, with
/// the offset moved just past it.
pub proof fn lemma_parse_encoded_str(b: Seq<u8>, i: int, s: Seq<u8>)
    requires
        0 <= i,
        i + 4 + s.len() <= b.len(),
        s.len() < 0x1_0000_0000,
        b.subrange(i, i + 4) == spec_le32(s.len() as u32),
        b.subrange(i + 4, i + 4 + s.len()) == s,
    ensures
        spec_parse_str(b, i) == Some((s, i + 4 + s.len())),
{
    let four = b.subrange(i, i + 4);
    assert(b[i] == four[0]);
    assert(b[i + 1] == four[1]);
    assert(b[i + 2] == four[2]);
    assert(b[i + 3] == four[3]);
    lemma_le32_roundtrip(b, i, s.len() as u32);
}

/// The four little-endian bytes of the value at a given offset, read as a `u32`.
pub fn read_le32_at(b: &Vec<u8>, i: usize) -> (n: u32)
    requires
        i + 4 <= b@.len(),
    ensures
        n == le32_at(b@, i as int),
{
    let len = b.len();
    assert(i + 4 <= len);
    let b0 = b[i] as u32;
    let b1 = b[i + 1] as u32;
    let b2 = b[i + 2] as u32;
    let b3 = b[i + 3] as u32;
    b0 | (b1 << 8) | (b2 << 16) | (b3 << 24)
}

/// Appends the four little-endian bytes of `n`.
pub fn push_le32(out: &mut Vec<u8>, n: u32)
    ensures
        final(out)@ == old(out)@ + spec_le32(n),
{
    out.push((n & 0xff) as u8);
    out.push(((n >> 8) & 0xff) as u8);
    out.push(((n >> 16) & 0xff) as u8);
    out.push(((n >> 24) & 0xff) as u8);
    assert(out@ =~= old(out)@ + spec_le32(n));
}

/// Appends every byte of `src`.
pub fn push_bytes(out: &mut Vec<u8>, src: &Vec<u8>)
    ensures
        final(out)@ == old(out)@ + src@,
{
    let mut j: usize = 0;
    while j < src.len()
        invariant
            j <= src@.len(),
            out@ == old(out)@ + src@.subrange(0, j as int),
        decreases src@.len() - j,
    {
        out.push(src[j]);
        assert(out@ =~= old(out)@ + src@.subrange(0, j + 1 as int));
        j += 1;
    }
    assert(out@ =~= old(out)@ + src@);
}

/// Reads a length-prefixed string from `b` at offset `i`, exactly as
/// `spec_parse_str` describes.
pub fn parse_str_at(b: &Vec<u8>, i: usize) -> (r: Option<(Vec<u8>, usize)>)
    requires
        i <= b@.len(),
    ensures
        (r matches Some(p) ==> spec_parse_str(b@, i as int) == Some((p.0@, p.1 as int)) && i <= p.1
            <= b@.len()),
        r is None ==> spec_parse_str(b@, i as int) is None,
{
    if b.len() - i < 4 {
        return None;
    }
    let n = read_le32_at(b, i);
    let start = i + 4;
    if n as usize > b.len() - start {
        return None;
    }
    let end = start + n as usize;
    let mut s: Vec<u8> = Vec::new();
    let mut j: usize = start;
    while j < end
        invariant
            start <= j <= end,
            end <= b@.len(),
            s@ == b@.subrange(start as int, j as int),
        decreases end - j,
    {
        s.push(b[j]);
        assert(s@ =~= b@.subrange(start as int, j + 1 as int));
        j += 1;
    }
    Some((s, end))
}

/// Returns a copy of `src`, byte for byte.
pub fn copy_bytes(src: &Vec<u8>) -> (out: Vec<u8>)
    ensures
        out@ == src@,
{
    let mut out: Vec<u8> = Vec::new();
    push_bytes(&mut out, src);
    out
}

/// Whether two byte vectors hold the same bytes.
pub fn bytes_eq(a: &Vec<u8>, b: &Vec<u8>) -> (r: bool)
    ensures
        r <==> a@ == b@,
{
    if a.len() != b.len() {
        return false;
    }
    let mut i: usize = 0;
    while i < a.len()
        invariant
            i <= a@.len(),
            a@.len() == b@.len(),
            forall|j: int| 0 <= j < i ==> a@[j] == b@[j],
        decreases a@.len() - i,
    {
        if a[i] != b[i] {
            return false;
        }
        i += 1;
    }
    proof {
        assert(a@ =~= b@);
    }
    true
}

} // verus!
