//! Fixed-size little-endian encoding of the integers that make up the
//! records shared between host and device.

use vstd::prelude::*;

verus! {

/// The four bytes of `x`, least significant first.
#[verifier::opaque]
pub open spec fn le_u32(x: u32) -> Seq<u8> {
    seq![
        (x % 256) as u8,
        (x / 256 % 256) as u8,
        (x / 65536 % 256) as u8,
        (x / 16777216 % 256) as u8,
    ]
}

/// The eight bytes of `x`, least significant first.
#[verifier::opaque]
pub open spec fn le_u64(x: u64) -> Seq<u8> {
    le_u32((x % 4294967296) as u32) + le_u32((x / 4294967296) as u32)
}

/// The integer whose little-endian bytes are `s[at .. at + 4]`.
pub open spec fn read_le_u32(s: Seq<u8>, at: int) -> u32 {
    (s[at] as int + 256 * (s[at + 1] as int) + 65536 * (s[at + 2] as int) + 16777216 * (s[at + 3] as int)) as u32
}

/// The integer whose little-endian bytes are `s[at .. at + 8]`.
pub open spec fn read_le_u64(s: Seq<u8>, at: int) -> u64 {
    (read_le_u32(s, at) as int + 4294967296 * (read_le_u32(s, at + 4) as int)) as u64
}

/// The little-endian bytes of every element of `xs`, in order.
pub open spec fn le_u32_seq(xs: Seq<u32>) -> Seq<u8>
    decreases xs.len(),
{
    if xs.len() == 0 {
        Seq::empty()
    } else {
        le_u32_seq(xs.drop_last()) + le_u32(xs.last())
    }
}

/// An encoded 32-bit integer has four bytes.
pub proof fn lemma_le_u32_len(x: u32)
    ensures
        le_u32(x).len() == 4,
{
    reveal(le_u32);
}

/// An encoded 64-bit integer has eight bytes.
pub proof fn lemma_le_u64_len(x: u64)
    ensures
        le_u64(x).len() == 8,
{
    reveal(le_u32);
    reveal(le_u64);
}

/// Reading back what `le_u32` wrote gives the same integer, wherever in a
/// longer sequence it stands.
pub proof fn lemma_read_le_u32(s: Seq<u8>, at: int, x: u32)
    requires
        0 <= at,
        at + 4 <= s.len(),
        s.subrange(at, at + 4) == le_u32(x),
    ensures
        read_le_u32(s, at) == x,
{
    reveal(le_u32);
    let w = s.subrange(at, at + 4);
    assert(s[at] == w[0]);
    assert(s[at + 1] == w[1]);
    assert(s[at + 2] == w[2]);
    assert(s[at + 3] == w[3]);
}

/// Reading back what `le_u64` wrote gives the same integer, wherever in a
/// longer sequence it stands.
pub proof fn lemma_read_le_u64(s: Seq<u8>, at: int, x: u64)
    requires
        0 <= at,
        at + 8 <= s.len(),
        s.subrange(at, at + 8) == le_u64(x),
    ensures
        read_le_u64(s, at) == x,
{
    let lo = (x % 4294967296) as u32;
    let hi = (x / 4294967296) as u32;
    reveal(le_u64);
    lemma_le_u32_len(lo);
    lemma_le_u32_len(hi);
    let w = s.subrange(at, at + 8);
    assert(s.subrange(at, at + 4) =~= w.subrange(0, 4));
    assert(s.subrange(at + 4, at + 8) =~= w.subrange(4, 8));
    assert(w.subrange(0, 4) =~= le_u32(lo));
    assert(w.subrange(4, 8) =~= le_u32(hi));
    lemma_read_le_u32(s, at, lo);
    lemma_read_le_u32(s, at + 4, hi);
}

/// The encoding of a sequence of integers has four bytes for each of them.
pub proof fn lemma_le_u32_seq_len(xs: Seq<u32>)
    ensures
        le_u32_seq(xs).len() == 4 * xs.len(),
    decreases xs.len(),
{
    if xs.len() > 0 {
        lemma_le_u32_seq_len(xs.drop_last());
        lemma_le_u32_len(xs.last());
    }
}

/// The `i`-th integer of an encoded sequence reads back from byte `4 * i`.
pub proof fn law_u32_sequence_reads_back(xs: Seq<u32>, i: int)
    requires
        0 <= i < xs.len(),
    ensures
        le_u32_seq(xs).len() == 4 * xs.len(),
        read_le_u32(le_u32_seq(xs), 4 * i) == xs[i],
    decreases xs.len(),
{
    let head = xs.drop_last();
    let all = le_u32_seq(xs);
    lemma_le_u32_seq_len(head);
    lemma_le_u32_seq_len(xs);
    lemma_le_u32_len(xs.last());
    if i == xs.len() - 1 {
        assert(all.subrange(4 * i, 4 * i + 4) =~= le_u32(xs.last()));
        lemma_read_le_u32(all, 4 * i, xs[i]);
    } else {
        law_u32_sequence_reads_back(head, i);
        assert(head[i] == xs[i]);
        let part = le_u32_seq(head);
        assert(all[4 * i] == part[4 * i]);
        assert(all[4 * i + 1] == part[4 * i + 1]);
        assert(all[4 * i + 2] == part[4 * i + 2]);
        assert(all[4 * i + 3] == part[4 * i + 3]);
    }
}

/// Appends the little-endian bytes of `x` to `out`.
pub fn put_u32(out: &mut Vec<u8>, x: u32)
    ensures
        final(out)@ == old(out)@ + le_u32(x),
{
    out.push((x % 256) as u8);
    out.push((x / 256 % 256) as u8);
    out.push((x / 65536 % 256) as u8);
    out.push((x / 16777216 % 256) as u8);
    proof {
        reveal(le_u32);
        assert(out@ =~= old(out)@ + le_u32(x));
    }
}

/// Appends the little-endian bytes of `x` to `out`.
pub fn put_u64(out: &mut Vec<u8>, x: u64)
    ensures
        final(out)@ == old(out)@ + le_u64(x),
{
    put_u32(out, (x % 4294967296) as u32);
    put_u32(out, (x / 4294967296) as u32);
    proof {
        reveal(le_u64);
        assert(out@ =~= old(out)@ + le_u64(x));
    }
}

/// Reads the little-endian integer stored at `bytes[at .. at + 4]`.
pub fn get_u32(bytes: &Vec<u8>, at: usize) -> (x: u32)
    requires
        at + 4 <= bytes@.len(),
    ensures
        x == read_le_u32(bytes@, at as int),
{
    let n: usize = bytes.len();
    assert(at + 4 <= n);
    let b0: u32 = bytes[at] as u32;
    let b1: u32 = bytes[at + 1] as u32;
    let b2: u32 = bytes[at + 2] as u32;
    let b3: u32 = bytes[at + 3] as u32;
    b0 + 256 * b1 + 65536 * b2 + 16777216 * b3
}

/// Reads the little-endian integer stored at `bytes[at .. at + 8]`.
pub fn get_u64(bytes: &Vec<u8>, at: usize) -> (x: u64)
    requires
        at + 8 <= bytes@.len(),
    ensures
        x == read_le_u64(bytes@, at as int),
{
    let n: usize = bytes.len();
    assert(at + 8 <= n);
    let lo: u64 = get_u32(bytes, at) as u64;
    let hi: u64 = get_u32(bytes, at + 4) as u64;
    lo + 4294967296 * hi
}

/// The little-endian bytes of every element of `xs`, in order.
pub fn encode_u32_slice(xs: &Vec<u32>) -> (out: Vec<u8>)
    ensures
        out@ == le_u32_seq(xs@),
        out@.len() == 4 * xs@.len(),
{
    let mut out: Vec<u8> = Vec::new();
    let mut i: usize = 0;
    while i < xs.len()
        invariant
            i <= xs@.len(),
            out@ == le_u32_seq(xs@.take(i as int)),
        decreases xs@.len() - i,
    {
        put_u32(&mut out, xs[i]);
        proof {
            assert(xs@.take(i + 1).drop_last() =~= xs@.take(i as int));
        }
        i += 1;
    }
    proof {
        assert(xs@.take(i as int) =~= xs@);
        lemma_le_u32_seq_len(xs@);
    }
    out
}

} // verus!
