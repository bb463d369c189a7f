//! Little-endian readers for the fixed-width binary layouts shared by the
//! instruction and log schemas.

use vstd::prelude::*;

verus! {

/// Value of four little-endian bytes.
pub open spec fn le32(s: Seq<u8>) -> int
    recommends
        s.len() == 4,
{
    s[0] + 0x100 * s[1] + 0x1_0000 * s[2] + 0x100_0000 * s[3]
}

/// Value of eight little-endian bytes.
pub open spec fn le64(s: Seq<u8>) -> int
    recommends
        s.len() == 8,
{
    s[0] + 0x100 * s[1] + 0x1_0000 * s[2] + 0x100_0000 * s[3] + 0x1_0000_0000 * s[4]
        + 0x100_0000_0000 * s[5] + 0x1_0000_0000_0000 * s[6] + 0x100_0000_0000_0000 * s[7]
}

/// Reads a `u32` stored little-endian at `off`.
pub fn read_u32_le(data: &Vec<u8>, off: usize) -> (r: u32)
    requires
        off + 4 <= data@.len(),
    ensures
        r == le32(data@.subrange(off as int, off as int + 4)),
{
    let _n = data.len();
    let r: u32 = data[off] as u32 + 0x100 * (data[off + 1] as u32) + 0x1_0000 * (data[off + 2]
        as u32) + 0x100_0000 * (data[off + 3] as u32);
    proof {
        let s = data@.subrange(off as int, off as int + 4);
        assert(s[0] == data@[off as int]);
        assert(s[1] == data@[off as int + 1]);
        assert(s[2] == data@[off as int + 2]);
        assert(s[3] == data@[off as int + 3]);
    }
    r
}

/// Reads a `u64` stored little-endian at `off`.
pub fn read_u64_le(data: &Vec<u8>, off: usize) -> (r: u64)
    requires
        off + 8 <= data@.len(),
    ensures
        r == le64(data@.subrange(off as int, off as int + 8)),
{
    let _n = data.len();
    let r: u64 = data[off] as u64 + 0x100 * (data[off + 1] as u64) + 0x1_0000 * (data[off + 2]
        as u64) + 0x100_0000 * (data[off + 3] as u64) + 0x1_0000_0000 * (data[off + 4] as u64)
        + 0x100_0000_0000 * (data[off + 5] as u64) + 0x1_0000_0000_0000 * (data[off + 6] as u64)
        + 0x100_0000_0000_0000 * (data[off + 7] as u64);
    proof {
        let s = data@.subrange(off as int, off as int + 8);
        assert(s[0] == data@[off as int]);
        assert(s[1] == data@[off as int + 1]);
        assert(s[2] == data@[off as int + 2]);
        assert(s[3] == data@[off as int + 3]);
        assert(s[4] == data@[off as int + 4]);
        assert(s[5] == data@[off as int + 5]);
        assert(s[6] == data@[off as int + 6]);
        assert(s[7] == data@[off as int + 7]);
    }
    r
}

/// Copies `len` bytes starting at `off` into a fresh vector.
pub fn read_bytes(data: &Vec<u8>, off: usize, len: usize) -> (r: Vec<u8>)
    requires
        off + len <= data@.len(),
    ensures
        r@ == data@.subrange(off as int, off as int + len as int),
{
    let n = data.len();
    let mut r: Vec<u8> = Vec::new();
    let mut i: usize = 0;
    while i < len
        invariant
            off + len <= n == data@.len(),
            i <= len,
            r@ == data@.subrange(off as int, off as int + i as int),
        decreases len - i,
    {
        r.push(data[off + i]);
        proof {
            assert(r@ =~= data@.subrange(off as int, off as int + (i + 1) as int));
        }
        i = i + 1;
    }
    r
}

/// Copies a whole vector of bytes.
pub fn copy_bytes(data: &Vec<u8>) -> (r: Vec<u8>)
    ensures
        r@ == data@,
{
    let r = data.clone();
    proof {
        assert(r@ =~= data@);
    }
    r
}

/// Compares a vector of bytes with a fixed 32-byte identifier.
pub fn bytes_eq32(a: &Vec<u8>, b: &[u8; 32]) -> (r: bool)
    ensures
        r == (a@ == b@),
{
    if a.len() != 32 {
        proof {
            assert(a@ != b@) by {
                assert(b@.len() == 32);
            }
        }
        return false;
    }
    let mut i: usize = 0;
    while i < 32
        invariant
            a@.len() == 32,
            i <= 32,
            forall|j: int| 0 <= j < i ==> a@[j] == b@[j],
        decreases 32 - i,
    {
        if a[i] != b[i] {
            proof {
                assert(a@ != b@) by {
                    assert(a@[i as int] != b@[i as int]);
                }
            }
            return false;
        }
        i = i + 1;
    }
    proof {
        assert(a@ =~= b@);
    }
    true
}

/// Compares two byte vectors for equality of contents.
pub fn bytes_vec_eq(a: &Vec<u8>, b: &Vec<u8>) -> (r: bool)
    ensures
        r == (a@ == b@),
{
    let n = a.len();
    if n != b.len() {
        proof {
            assert(a@ != b@) by {
                assert(a@.len() != b@.len());
            }
        }
        return false;
    }
    let mut i: usize = 0;
    while i < n
        invariant
            n == a@.len() == b@.len(),
            i <= n,
            forall|j: int| 0 <= j < i ==> a@[j] == b@[j],
        decreases n - i,
    {
        if a[i] != b[i] {
            proof {
                assert(a@ != b@) by {
                    assert(a@[i as int] != b@[i as int]);
                }
            }
            return false;
        }
        i = i + 1;
    }
    proof {
        assert(a@ =~= b@);
    }
    true
}

/// Mathematical image of an optional byte vector.
pub open spec fn opt_bytes_view(o: Option<Vec<u8>>) -> Option<Seq<u8>> {
    match o {
        Some(v) => Some(v@),
        None => None,
    }
}

} // verus!
