//! Small verified helpers on byte vectors: little-endian encodings,
//! sub-slice extraction and exact comparison.

use vstd::prelude::*;

verus! {

/// The 16 little-endian bytes of a 128-bit value.
pub open spec fn u128_le_seq(x: u128) -> Seq<u8> {
    seq![
        (x % 0x100) as u8,
        ((x / 0x100) % 0x100) as u8,
        ((x / 0x10000) % 0x100) as u8,
        ((x / 0x1000000) % 0x100) as u8,
        ((x / 0x100000000) % 0x100) as u8,
        ((x / 0x10000000000) % 0x100) as u8,
        ((x / 0x1000000000000) % 0x100) as u8,
        ((x / 0x100000000000000) % 0x100) as u8,
        ((x / 0x10000000000000000) % 0x100) as u8,
        ((x / 0x1000000000000000000) % 0x100) as u8,
        ((x / 0x100000000000000000000) % 0x100) as u8,
        ((x / 0x10000000000000000000000) % 0x100) as u8,
        ((x / 0x1000000000000000000000000) % 0x100) as u8,
        ((x / 0x100000000000000000000000000) % 0x100) as u8,
        ((x / 0x10000000000000000000000000000) % 0x100) as u8,
        ((x / 0x1000000000000000000000000000000) % 0x100) as u8,
    ]
}

/// The 8 little-endian bytes of a 64-bit value.
pub open spec fn u64_le_seq(x: u64) -> Seq<u8> {
    seq![
        (x % 0x100) as u8,
        ((x / 0x100) % 0x100) as u8,
        ((x / 0x10000) % 0x100) as u8,
        ((x / 0x1000000) % 0x100) as u8,
        ((x / 0x100000000) % 0x100) as u8,
        ((x / 0x10000000000) % 0x100) as u8,
        ((x / 0x1000000000000) % 0x100) as u8,
        ((x / 0x100000000000000) % 0x100) as u8,
    ]
}

/// Appends the 16 little-endian bytes of `x` to `out`.
pub fn push_u128_le(out: &mut Vec<u8>, x: u128)
    ensures
        final(out)@ == old(out)@ + u128_le_seq(x),
{
    out.push((x % 0x100) as u8);
    out.push(((x / 0x100) % 0x100) as u8);
    out.push(((x / 0x10000) % 0x100) as u8);
    out.push(((x / 0x1000000) % 0x100) as u8);
    out.push(((x / 0x100000000) % 0x100) as u8);
    out.push(((x / 0x10000000000) % 0x100) as u8);
    out.push(((x / 0x1000000000000) % 0x100) as u8);
    out.push(((x / 0x100000000000000) % 0x100) as u8);
    out.push(((x / 0x10000000000000000) % 0x100) as u8);
    out.push(((x / 0x1000000000000000000) % 0x100) as u8);
    out.push(((x / 0x100000000000000000000) % 0x100) as u8);
    out.push(((x / 0x10000000000000000000000) % 0x100) as u8);
    out.push(((x / 0x1000000000000000000000000) % 0x100) as u8);
    out.push(((x / 0x100000000000000000000000000) % 0x100) as u8);
    out.push(((x / 0x10000000000000000000000000000) % 0x100) as u8);
    out.push(((x / 0x1000000000000000000000000000000) % 0x100) as u8);
    proof {
        assert(out@ =~= old(out)@ + u128_le_seq(x));
    }
}

/// Appends the 8 little-endian bytes of `x` to `out`.
pub fn push_u64_le(out: &mut Vec<u8>, x: u64)
    ensures
        final(out)@ == old(out)@ + u64_le_seq(x),
{
    out.push((x % 0x100) as u8);
    out.push(((x / 0x100) % 0x100) as u8);
    out.push(((x / 0x10000) % 0x100) as u8);
    out.push(((x / 0x1000000) % 0x100) as u8);
    out.push(((x / 0x100000000) % 0x100) as u8);
    out.push(((x / 0x10000000000) % 0x100) as u8);
    out.push(((x / 0x1000000000000) % 0x100) as u8);
    out.push(((x / 0x100000000000000) % 0x100) as u8);
    proof {
        assert(out@ =~= old(out)@ + u64_le_seq(x));
    }
}

/// Appends all of `src` to `out`.
pub fn append_bytes(out: &mut Vec<u8>, src: &Vec<u8>)
    ensures
        final(out)@ == old(out)@ + src@,
{
    let mut i: usize = 0;
    while i < src.len()
        invariant
            i <= src@.len(),
            out@ == old(out)@ + src@.subrange(0, i as int),
        decreases src@.len() - i,
    {
        out.push(src[i]);
        i = i + 1;
        proof {
            assert(out@ =~= old(out)@ + src@.subrange(0, i as int));
        }
    }
    proof {
        assert(src@.subrange(0, src@.len() as int) =~= src@);
    }
}

/// Copies `len` bytes of `data` starting at `start`.
pub fn bytes_range(data: &Vec<u8>, start: usize, len: usize) -> (r: Vec<u8>)
    requires
        start + len <= data@.len(),
    ensures
        r@ == data@.subrange(start as int, start as int + len as int),
{
    let n = data.len();
    let mut out: Vec<u8> = Vec::new();
    let mut i: usize = 0;
    while i < len
        invariant
            n == data@.len(),
            start + len <= n,
            i <= len,
            out@ == data@.subrange(start as int, start as int + i as int),
        decreases len - i,
    {
        out.push(data[start + i]);
        i = i + 1;
        proof {
            assert(out@ =~= data@.subrange(start as int, start as int + i as int));
        }
    }
    out
}

/// Compares two byte vectors for exact equality of their contents.
pub fn bytes_eq(a: &Vec<u8>, b: &Vec<u8>) -> (r: bool)
    ensures
        r <==> a@ == b@,
{
    if a.len() != b.len() {
        return false;
    }
    let mut i: usize = 0;
    while i < a.len()
        invariant
            a@.len() == b@.len(),
            i <= a@.len(),
            forall|j: int| 0 <= j < i ==> a@[j] == b@[j],
        decreases a@.len() - i,
    {
        if a[i] != b[i] {
            return false;
        }
        i = i + 1;
    }
    proof {
        assert(a@ =~= b@);
    }
    true
}

/// Reads the little-endian 16-bit value at offset `o` of `data`.
pub open spec fn u16_le_at(data: Seq<u8>, o: int) -> int {
    data[o] + 0x100 * data[o + 1]
}

/// Reads the little-endian 16-bit value at offset `o` of `data`.
pub fn read_u16_le(data: &Vec<u8>, o: usize) -> (r: u16)
    requires
        o + 2 <= data@.len(),
    ensures
        r == u16_le_at(data@, o as int),
{
    let n = data.len();
    assert(o + 2 <= n);
    (data[o] as u16) + 0x100 * (data[o + 1] as u16)
}

} // verus!
