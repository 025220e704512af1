//! Small verified byte-buffer helpers shared by the codec and the parser.

use vstd::prelude::*;

verus! {

/// Integer value of two big-endian bytes.
pub open spec fn spec_be16(s: Seq<u8>) -> int
    recommends
        s.len() == 2,
{
    s[0] * 0x100 + s[1]
}

/// Integer value of four big-endian bytes.
pub open spec fn spec_be32(s: Seq<u8>) -> int
    recommends
        s.len() == 4,
{
    ((s[0] * 0x100 + s[1]) * 0x100 + s[2]) * 0x100 + s[3]
}

/// Reads two big-endian bytes at `off`.
pub fn read_be_u16(b: &[u8], off: usize) -> (r: u16)
    requires
        off + 2 <= b@.len(),
    ensures
        r as int == spec_be16(b@.subrange(off as int, off as int + 2)),
{
    let r: u16 = (b[off] as u16) * 0x100 + (b[off + 1] as u16);
    proof {
        let s = b@.subrange(off as int, off as int + 2);
        assert(s[0] == b@[off as int]);
        assert(s[1] == b@[off as int + 1]);
    }
    r
}

/// Reads four big-endian bytes at `off`.
pub fn read_be_u32(b: &[u8], off: usize) -> (r: u32)
    requires
        off + 4 <= b@.len(),
    ensures
        r as int == spec_be32(b@.subrange(off as int, off as int + 4)),
{
    let r: u32 = ((b[off] as u32) * 0x100 + (b[off + 1] as u32)) * 0x100 + (b[off + 2] as u32);
    let r: u32 = r * 0x100 + (b[off + 3] as u32);
    proof {
        let s = b@.subrange(off as int, off as int + 4);
        assert(s[0] == b@[off as int]);
        assert(s[1] == b@[off as int + 1]);
        assert(s[2] == b@[off as int + 2]);
        assert(s[3] == b@[off as int + 3]);
    }
    r
}

/// Appends all of `src` to `dst`.
pub fn push_bytes(dst: &mut Vec<u8>, src: &[u8])
    ensures
        final(dst)@ == old(dst)@ + src@,
{
    let n: usize = src.len();
    for i in 0..n
        invariant
            n == src@.len(),
            dst@ == old(dst)@ + src@.subrange(0, i as int),
    {
        dst.push(src[i]);
        proof {
            assert(src@.subrange(0, i + 1) == src@.subrange(0, i as int).push(src@[i as int]));
        }
    }
    proof {
        assert(src@.subrange(0, n as int) == src@);
    }
}

/// Copies `N` bytes out of `b` starting at `off`.
pub fn array_from_slice<const N: usize>(b: &[u8], off: usize) -> (r: [u8; N])
    requires
        off + N <= b@.len(),
    ensures
        r@ == b@.subrange(off as int, off as int + N as int),
{
    let mut r: [u8; N] = vstd::array::array_fill_for_copy_types(0u8);
    let len: usize = b.len();
    for i in 0..N
        invariant
            off + N <= len,
            len == b@.len(),
            r@.len() == N,
            forall|j: int| 0 <= j < i ==> r@[j] == b@[off + j],
    {
        r[i] = b[off + i];
    }
    proof {
        assert(r@ =~= b@.subrange(off as int, off as int + N as int));
    }
    r
}

/// Byte-for-byte equality of two slices.
pub fn bytes_eq(a: &[u8], b: &[u8]) -> (r: bool)
    ensures
        r == (a@ == b@),
{
    if a.len() != b.len() {
        return false;
    }
    let n: usize = a.len();
    for i in 0..n
        invariant
            n == a@.len(),
            n == b@.len(),
            forall|j: int| 0 <= j < i ==> a@[j] == b@[j],
    {
        if a[i] != b[i] {
            proof {
                assert(a@[i as int] != b@[i as int]);
            }
            return false;
        }
    }
    proof {
        assert(a@ =~= b@);
    }
    true
}

} // verus!
