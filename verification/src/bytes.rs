//! Copies and rearrangements of bytes.

use vstd::array::ArrayAdditionalExecFns;
use vstd::prelude::*;

verus! {

/// A copy of `bytes`.
pub fn copy_bytes(bytes: &[u8]) -> (r: Vec<u8>)
    ensures
        r@ == bytes@,
{
    let mut r: Vec<u8> = Vec::new();
    let mut i: usize = 0;
    while i < bytes.len()
        invariant
            i <= bytes.len(),
            r@ == bytes@.subrange(0, i as int),
        decreases bytes.len() - i,
    {
        r.push(bytes[i]);
        assert(r@ =~= bytes@.subrange(0, i + 1));
        i += 1;
    }
    assert(bytes@.subrange(0, bytes@.len() as int) =~= bytes@);
    r
}

/// A copy of the bytes from `from` up to `to`.
pub fn copy_range(bytes: &[u8; 33], from: usize, to: usize) -> (r: Vec<u8>)
    requires
        from <= to <= 33,
    ensures
        r@ == bytes@.subrange(from as int, to as int),
{
    let mut r: Vec<u8> = Vec::new();
    let mut i: usize = from;
    while i < to
        invariant
            from <= i <= to <= 33,
            r@ == bytes@.subrange(from as int, i as int),
        decreases to - i,
    {
        r.push(bytes[i]);
        assert(r@ =~= bytes@.subrange(from as int, i + 1));
        i += 1;
    }
    r
}

/// The bytes in opposite order.
pub fn reversed(bytes: &Vec<u8>) -> (r: Vec<u8>)
    ensures
        r@ == bytes@.reverse(),
{
    let mut r: Vec<u8> = Vec::new();
    let n = bytes.len();
    let mut i: usize = 0;
    while i < n
        invariant
            n == bytes.len(),
            i <= n,
            r@.len() == i,
            forall|k: int| 0 <= k < i ==> r@[k] == bytes@[n - 1 - k],
        decreases n - i,
    {
        r.push(bytes[n - 1 - i]);
        i += 1;
    }
    assert(r@ =~= bytes@.reverse());
    r
}

/// The 32 bytes of a vector of that length.
pub fn to_array32(bytes: &Vec<u8>) -> (r: [u8; 32])
    requires
        bytes@.len() == 32,
    ensures
        r@ == bytes@,
{
    let mut r = [0u8;32];
    let mut i: usize = 0;
    while i < 32
        invariant
            i <= 32,
            bytes@.len() == 32,
            forall|k: int| 0 <= k < i ==> r@[k] == bytes@[k],
        decreases 32 - i,
    {
        r.set(i, bytes[i]);
        i += 1;
    }
    assert(r@ =~= bytes@);
    r
}

/// The 33 bytes of a vector of that length.
pub fn to_array33(bytes: &Vec<u8>) -> (r: [u8; 33])
    requires
        bytes@.len() == 33,
    ensures
        r@ == bytes@,
{
    let mut r = [0u8;33];
    let mut i: usize = 0;
    while i < 33
        invariant
            i <= 33,
            bytes@.len() == 33,
            forall|k: int| 0 <= k < i ==> r@[k] == bytes@[k],
        decreases 33 - i,
    {
        r.set(i, bytes[i]);
        i += 1;
    }
    assert(r@ =~= bytes@);
    r
}

/// The 64 bytes of a vector of that length.
pub fn to_array64(bytes: &Vec<u8>) -> (r: [u8; 64])
    requires
        bytes@.len() == 64,
    ensures
        r@ == bytes@,
{
    let mut r = [0u8;64];
    let mut i: usize = 0;
    while i < 64
        invariant
            i <= 64,
            bytes@.len() == 64,
            forall|k: int| 0 <= k < i ==> r@[k] == bytes@[k],
        decreases 64 - i,
    {
        r.set(i, bytes[i]);
        i += 1;
    }
    assert(r@ =~= bytes@);
    r
}

/// The 32 bytes in opposite order.
pub fn reversed_digest(digest: &[u8; 32]) -> (r: [u8; 32])
    ensures
        r@ == digest@.reverse(),
{
    let mut r = [0u8;32];
    let mut i: usize = 0;
    while i < 32
        invariant
            i <= 32,
            forall|k: int| 0 <= k < i ==> r@[k] == digest@[31 - k],
        decreases 32 - i,
    {
        r.set(i, digest[31 - i]);
        i += 1;
    }
    assert(r@ =~= digest@.reverse());
    r
}

} // verus!
