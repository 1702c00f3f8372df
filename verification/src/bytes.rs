//! Small byte-string helpers: appending and copying `Vec<u8>` values.

use vstd::prelude::*;

verus! {

/// Append the bytes of `src` to `dst`.
pub fn append_bytes(dst: &mut Vec<u8>, src: &Vec<u8>)
    ensures
        final(dst)@ == old(dst)@ + src@,
{
    let mut j: usize = 0;
    while j < src.len()
        invariant
            j <= src.len(),
            dst@ == old(dst)@ + src@.take(j as int),
        decreases src.len() - j,
    {
        dst.push(src[j]);
        assert(src@.take(j + 1 as int) =~= src@.take(j as int).push(src@[j as int]));
        assert(old(dst)@ + src@.take(j + 1 as int)
            =~= (old(dst)@ + src@.take(j as int)).push(src@[j as int]));
        j = j + 1;
    }
    assert(src@.take(src@.len() as int) =~= src@);
}

/// A fresh byte string with the same contents as `src`.
pub fn copy_bytes(src: &Vec<u8>) -> (r: Vec<u8>)
    ensures
        r@ == src@,
{
    let mut out: Vec<u8> = Vec::new();
    append_bytes(&mut out, src);
    assert(out@ =~= src@);
    out
}

/// A fresh offset list with the same contents as `src`.
pub fn copy_u64s(src: &Vec<u64>) -> (r: Vec<u64>)
    ensures
        r@ == src@,
{
    let mut out: Vec<u64> = Vec::new();
    let mut j: usize = 0;
    while j < src.len()
        invariant
            j <= src.len(),
            out@ == src@.take(j as int),
        decreases src.len() - j,
    {
        out.push(src[j]);
        assert(src@.take(j + 1 as int) =~= src@.take(j as int).push(src@[j as int]));
        j = j + 1;
    }
    assert(src@.take(src@.len() as int) =~= src@);
    out
}

} // verus!
