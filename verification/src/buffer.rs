//! Byte-range edits on an in-memory device image, and small byte-sequence
//! helpers shared by the replay engine.

use vstd::prelude::*;

verus! {

/// `n` zero bytes.
pub open spec fn spec_zeros(n: int) -> Seq<u8> {
    Seq::new(n as nat, |i: int| 0u8)
}

/// `dev` with the `data.len()` bytes starting at `off` replaced by `data`.
pub open spec fn spec_splice(dev: Seq<u8>, off: int, data: Seq<u8>) -> Seq<u8>
    recommends
        0 <= off,
        off + data.len() <= dev.len(),
{
    dev.subrange(0, off) + data + dev.subrange(off + data.len(), dev.len() as int)
}

/// Length of the zero-terminated prefix of `b`: the number of bytes before
/// the first zero byte, or all of `b` when it has none.
pub open spec fn spec_name_len(b: Seq<u8>) -> int
    decreases b.len(),
{
    if b.len() == 0 {
        0
    } else if b[0] == 0 {
        0
    } else {
        1 + spec_name_len(b.subrange(1, b.len() as int))
    }
}

/// The zero-terminated prefix of `b` itself.
pub open spec fn spec_name_of(b: Seq<u8>) -> Seq<u8> {
    b.subrange(0, spec_name_len(b))
}

/// A scan that stops at index `i` on the first zero byte pins `i` down as the
/// zero-terminated prefix length.
proof fn lemma_name_len_of_scan(b: Seq<u8>, i: int)
    requires
        0 <= i <= b.len(),
        forall|j: int| 0 <= j < i ==> b[j] != 0,
        i < b.len() ==> b[i] == 0,
    ensures
        spec_name_len(b) == i,
    decreases b.len(),
{
    if b.len() != 0 && b[0] != 0 {
        let t = b.subrange(1, b.len() as int);
        assert(forall|j: int| 0 <= j < i - 1 ==> t[j] != 0);
        lemma_name_len_of_scan(t, i - 1);
    }
}

/// Copies the zero-terminated prefix of `b` out as an owned vector.
pub fn name_of(b: &[u8]) -> (r: Vec<u8>)
    ensures
        r@ == spec_name_of(b@),
{
    let n = b.len();
    let mut i: usize = 0;
    while i < n && b[i] != 0
        invariant
            n == b@.len(),
            0 <= i <= n,
            forall|j: int| 0 <= j < i ==> b@[j] != 0,
        decreases n - i,
    {
        i += 1;
    }
    proof {
        lemma_name_len_of_scan(b@, i as int);
    }
    let mut r: Vec<u8> = Vec::new();
    let mut k: usize = 0;
    while k < i
        invariant
            0 <= k <= i <= b@.len(),
            r@ == b@.subrange(0, k as int),
        decreases i - k,
    {
        let v = b[k];
        r.push(v);
        proof {
            assert(r@ =~= b@.subrange(0, k + 1));
        }
        k += 1;
    }
    proof {
        assert(r@ =~= spec_name_of(b@));
    }
    r
}

/// Whether two byte strings hold the same bytes.
pub fn bytes_eq(a: &[u8], b: &[u8]) -> (r: bool)
    ensures
        r == (a@ == b@),
{
    let n = a.len();
    if n != b.len() {
        proof {
            assert(a@.len() != b@.len());
        }
        return false;
    }
    let mut i: usize = 0;
    while i < n
        invariant
            n == a@.len() == b@.len(),
            0 <= i <= n,
            forall|j: int| 0 <= j < i ==> a@[j] == b@[j],
        decreases n - i,
    {
        if a[i] != b[i] {
            return false;
        }
        i += 1;
    }
    proof {
        assert(a@ =~= b@);
    }
    true
}

/// Overwrites `dst[off .. off + src.len()]` with `src`, in place.
pub fn write_range(dst: &mut Vec<u8>, off: usize, src: &[u8])
    requires
        off + src@.len() <= old(dst)@.len(),
    ensures
        final(dst)@ == spec_splice(old(dst)@, off as int, src@),
{
    let n = src.len();
    let dlen = dst.len();
    let mut i: usize = 0;
    while i < n
        invariant
            n == src@.len(),
            0 <= i <= n,
            dlen == dst@.len(),
            off + n <= dst@.len(),
            dst@.len() == old(dst)@.len(),
            forall|j: int| 0 <= j < i ==> dst@[off + j] == src@[j],
            forall|j: int|
                0 <= j < dst@.len() && !(off <= j < off + i) ==> dst@[j] == old(dst)@[j],
        decreases n - i,
    {
        let v = src[i];
        dst.set(off + i, v);
        i += 1;
    }
    proof {
        assert(final(dst)@ =~= spec_splice(old(dst)@, off as int, src@));
    }
}

/// Overwrites `dst[off .. off + len]` with zero bytes, in place.
pub fn zero_fill_range(dst: &mut Vec<u8>, off: usize, len: usize)
    requires
        off + len <= old(dst)@.len(),
    ensures
        final(dst)@ == spec_splice(old(dst)@, off as int, spec_zeros(len as int)),
{
    let dlen = dst.len();
    let mut i: usize = 0;
    while i < len
        invariant
            0 <= i <= len,
            dlen == dst@.len(),
            off + len <= dst@.len(),
            dst@.len() == old(dst)@.len(),
            forall|j: int| off <= j < off + i ==> dst@[j] == 0u8,
            forall|j: int|
                0 <= j < dst@.len() && !(off <= j < off + i) ==> dst@[j] == old(dst)@[j],
        decreases len - i,
    {
        dst.set(off + i, 0u8);
        i += 1;
    }
    proof {
        assert(final(dst)@ =~= spec_splice(old(dst)@, off as int, spec_zeros(len as int)));
    }
}

/// Write fidelity of a splice: the buffer keeps its length, the spliced
/// range reads back exactly as the data written, and every byte outside the
/// range is untouched.
pub proof fn lemma_splice_readback(dev: Seq<u8>, off: int, data: Seq<u8>)
    requires
        0 <= off,
        off + data.len() <= dev.len(),
    ensures
        spec_splice(dev, off, data).len() == dev.len(),
        spec_splice(dev, off, data).subrange(off, off + data.len()) == data,
        forall|j: int|
            0 <= j < dev.len() && !(off <= j < off + data.len()) ==> spec_splice(dev, off, data)[j]
                == dev[j],
{
    assert(spec_splice(dev, off, data).subrange(off, off + data.len()) =~= data);
}

/// Splicing one range and then an adjacent one is the same as splicing the
/// two payloads at once.
pub proof fn lemma_splice_adjacent(dev: Seq<u8>, off: int, a: Seq<u8>, b: Seq<u8>)
    requires
        0 <= off,
        off + a.len() + b.len() <= dev.len(),
    ensures
        spec_splice(spec_splice(dev, off, a), off + a.len(), b) == spec_splice(dev, off, a + b),
{
    assert(spec_splice(spec_splice(dev, off, a), off + a.len(), b) =~= spec_splice(
        dev,
        off,
        a + b,
    ));
}

/// Two adjacent runs of zeros splice together into one longer run.
pub proof fn lemma_splice_adjacent_zeros(dev: Seq<u8>, off: int, n: int, m: int)
    requires
        0 <= off,
        0 <= n,
        0 <= m,
        off + n + m <= dev.len(),
    ensures
        spec_splice(spec_splice(dev, off, spec_zeros(n)), off + n, spec_zeros(m)) == spec_splice(
            dev,
            off,
            spec_zeros(n + m),
        ),
{
    assert(spec_zeros(n) + spec_zeros(m) =~= spec_zeros(n + m));
    lemma_splice_adjacent(dev, off, spec_zeros(n), spec_zeros(m));
}

} // verus!
