use vstd::prelude::*;

verus! {

/// Appends all of `src` to the end of `dst`.
pub(crate) fn append_bytes(dst: &mut Vec<u8>, src: &[u8])
    ensures
        final(dst)@ == old(dst)@ + src@,
{
    dst.extend_from_slice(src);
    proof {
        assert(dst@ =~= old(dst)@ + src@);
    }
}

/// Copies the 32 bytes of `src` starting at `off` into a fresh array.
pub(crate) fn copy_32(src: &[u8], off: usize) -> (r: [u8; 32])
    requires
        off + 32 <= src@.len(),
    ensures
        r@ == src@.subrange(off as int, off as int + 32),
{
    let n: usize = src.len();
    let mut out: [u8; 32] = [0u8; 32];
    let mut i: usize = 0;
    while i < 32
        invariant
            i <= 32,
            off + 32 <= n,
            n == src@.len(),
            forall|j: int| 0 <= j < i ==> out@[j] == src@[off + j],
        decreases 32 - i,
    {
        out[i] = src[off + i];
        i = i + 1;
    }
    proof {
        assert(out@ =~= src@.subrange(off as int, off as int + 32));
    }
    out
}

/// Copies the 12 bytes of `src` starting at `off` into a fresh array.
pub(crate) fn copy_12(src: &[u8], off: usize) -> (r: [u8; 12])
    requires
        off + 12 <= src@.len(),
    ensures
        r@ == src@.subrange(off as int, off as int + 12),
{
    let n: usize = src.len();
    let mut out: [u8; 12] = [0u8; 12];
    let mut i: usize = 0;
    while i < 12
        invariant
            i <= 12,
            off + 12 <= n,
            n == src@.len(),
            forall|j: int| 0 <= j < i ==> out@[j] == src@[off + j],
        decreases 12 - i,
    {
        out[i] = src[off + i];
        i = i + 1;
    }
    proof {
        assert(out@ =~= src@.subrange(off as int, off as int + 12));
    }
    out
}

/// Byte-for-byte equality of two slices.
pub(crate) fn bytes_eq(a: &[u8], b: &[u8]) -> (r: bool)
    ensures
        r <==> a@ == b@,
{
    let n: usize = a.len();
    if n != b.len() {
        proof {
            assert(a@.len() != b@.len());
        }
        return false;
    }
    let mut i: usize = 0;
    while i < n
        invariant
            i <= n,
            n == a@.len(),
            n == b@.len(),
            forall|j: int| 0 <= j < i ==> a@[j] == b@[j],
        decreases n - i,
    {
        if a[i] != b[i] {
            return false;
        }
        i = i + 1;
    }
    proof {
        assert(a@ =~= b@);
    }
    true
}

} // verus!
