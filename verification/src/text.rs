//! Small verified helpers on byte strings.

use vstd::prelude::*;

verus! {

/// Appends every byte of `src` to the end of `dst`.
pub fn push_all(dst: &mut Vec<u8>, src: &Vec<u8>)
    ensures
        final(dst)@ == old(dst)@ + src@,
{
    let mut i: usize = 0;
    while i < src.len()
        invariant
            i <= src@.len(),
            dst@ == old(dst)@ + src@.take(i as int),
        decreases src@.len() - i,
    {
        dst.push(src[i]);
        i += 1;
        proof {
            assert(dst@ =~= old(dst)@ + src@.take(i as int));
        }
    }
    proof {
        assert(src@.take(src@.len() as int) =~= src@);
    }
}

/// Copies a byte string.
pub fn clone_bytes(v: &Vec<u8>) -> (r: Vec<u8>)
    ensures
        r@ == v@,
{
    let mut r: Vec<u8> = Vec::new();
    push_all(&mut r, v);
    proof {
        assert(Seq::<u8>::empty() + v@ =~= v@);
    }
    r
}

/// Whether two byte strings hold the same bytes.
pub fn bytes_eq(a: &Vec<u8>, b: &Vec<u8>) -> (r: bool)
    ensures
        r == (a@ == b@),
{
    if a.len() != b.len() {
        return false;
    }
    let mut i: usize = 0;
    while i < a.len()
        invariant
            i <= a@.len(),
            a@.len() == b@.len(),
            forall|j: int| 0 <= j < i ==> a@[j] == b@[j],
        decreases a@.len() - i,
    {
        if a[i] != b[i] {
            return false;
        }
        i += 1;
    }
    proof {
        assert(a@ =~= b@);
    }
    true
}

/// Whether `suf` is a suffix of `p`.
pub open spec fn spec_has_suffix(p: Seq<u8>, suf: Seq<u8>) -> bool {
    p.len() >= suf.len() && p.skip(p.len() - suf.len()) == suf
}

/// Checks whether `p` ends with the bytes of `suf`.
pub fn has_suffix(p: &Vec<u8>, suf: &Vec<u8>) -> (r: bool)
    ensures
        r == spec_has_suffix(p@, suf@),
{
    if p.len() < suf.len() {
        return false;
    }
    let off: usize = p.len() - suf.len();
    let mut i: usize = 0;
    while i < suf.len()
        invariant
            i <= suf@.len(),
            off == p@.len() - suf@.len(),
            p@.len() >= suf@.len(),
            p@.len() <= usize::MAX,
            forall|j: int| 0 <= j < i ==> p@[off + j] == suf@[j],
        decreases suf@.len() - i,
    {
        if p[off + i] != suf[i] {
            proof {
                assert(p@.skip(off as int)[i as int] == p@[off + i]);
            }
            return false;
        }
        i += 1;
    }
    proof {
        assert(p@.skip(off as int) =~= suf@);
    }
    true
}

/// Copies the first `n` bytes of `p`.
pub fn take_prefix(p: &Vec<u8>, n: usize) -> (r: Vec<u8>)
    requires
        n <= p@.len(),
    ensures
        r@ == p@.take(n as int),
{
    let mut r: Vec<u8> = Vec::new();
    let mut i: usize = 0;
    while i < n
        invariant
            i <= n <= p@.len(),
            r@ == p@.take(i as int),
        decreases n - i,
    {
        r.push(p[i]);
        i += 1;
        proof {
            assert(r@ =~= p@.take(i as int));
        }
    }
    r
}

} // verus!
