//! Little-endian integers and 32-byte addresses inside byte buffers.
use vstd::prelude::*;
use vstd::bytes::{spec_u64_from_le_bytes, spec_u64_to_le_bytes, u64_from_le_bytes, u64_to_le_bytes};
use vstd::slice::slice_subrange;

verus! {

/// A 32-byte account address.
pub type Address = [u8; 32];

/// The `u64` stored little-endian in `s[at .. at + 8]`.
pub open spec fn u64_at(s: Seq<u8>, at: int) -> u64 {
    spec_u64_from_le_bytes(s.subrange(at, at + 8))
}

/// Reads the little-endian `u64` at byte offset `at`.
pub fn read_u64(data: &[u8], at: usize) -> (r: u64)
    requires
        at + 8 <= data.len(),
    ensures
        r == u64_at(data@, at as int),
{
    let part = slice_subrange(data, at, at + 8);
    u64_from_le_bytes(part)
}

/// Reads the 32 bytes at offset `at` as an address.
pub fn read_address(data: &[u8], at: usize) -> (r: Address)
    requires
        at + 32 <= data.len(),
    ensures
        r@ == data@.subrange(at as int, at + 32),
{
    let mut r: Address = [0u8; 32];
    let mut i: usize = 0;
    while i < 32
        invariant
            at + 32 <= data.len(),
            i <= 32,
            r@.len() == 32,
            forall|k: int| 0 <= k < i ==> r@[k] == data@[at + k],
        decreases 32 - i,
    {
        r[i] = data[at + i];
        i = i + 1;
    }
    assert(r@ =~= data@.subrange(at as int, at + 32));
    r
}

/// Whether two addresses are the same.
pub fn same_address(a: &Address, b: &Address) -> (r: bool)
    ensures
        r == (a@ == b@),
{
    let mut i: usize = 0;
    while i < 32
        invariant
            i <= 32,
            a@.len() == 32,
            b@.len() == 32,
            forall|k: int| 0 <= k < i ==> a@[k] == b@[k],
        decreases 32 - i,
    {
        if a[i] != b[i] {
            return false;
        }
        i = i + 1;
    }
    assert(a@ =~= b@);
    true
}

/// Appends the little-endian bytes of `x`.
pub fn push_u64(out: &mut Vec<u8>, x: u64)
    ensures
        final(out)@ == old(out)@ + spec_u64_to_le_bytes(x),
{
    let mut b = u64_to_le_bytes(x);
    out.append(&mut b);
}

/// Appends the 32 bytes of an address.
pub fn push_address(out: &mut Vec<u8>, a: &Address)
    ensures
        final(out)@ == old(out)@ + a@,
{
    let ghost start = out@;
    let mut i: usize = 0;
    while i < 32
        invariant
            i <= 32,
            a@.len() == 32,
            out@ == start + a@.subrange(0, i as int),
        decreases 32 - i,
    {
        out.push(a[i]);
        i = i + 1;
        assert(out@ =~= start + a@.subrange(0, i as int));
    }
    assert(a@.subrange(0, 32) =~= a@);
}

} // verus!
