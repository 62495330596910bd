//! Big-endian views of machine integers and small byte-level helpers.
//!
//! Every multi-byte integer on the wire is big-endian.  The spec functions
//! here are the single place where that layout is written down; the exec
//! functions are proved against them.

use vstd::prelude::*;

verus! {

/// The two big-endian bytes of a 16-bit integer.
pub open spec fn u16_be_bytes(x: u16) -> Seq<u8> {
    seq![(x >> 8) as u8, x as u8]
}

/// The four big-endian bytes of a 32-bit integer.
pub open spec fn u32_be_bytes(x: u32) -> Seq<u8> {
    seq![(x >> 24) as u8, (x >> 16) as u8, (x >> 8) as u8, x as u8]
}

/// The eight big-endian bytes of a 64-bit integer.
pub open spec fn u64_be_bytes(x: u64) -> Seq<u8> {
    seq![
        (x >> 56) as u8,
        (x >> 48) as u8,
        (x >> 40) as u8,
        (x >> 32) as u8,
        (x >> 24) as u8,
        (x >> 16) as u8,
        (x >> 8) as u8,
        x as u8,
    ]
}

/// The 16-bit integer read big-endian from a two-byte sequence.
pub open spec fn be_u16_of(s: Seq<u8>) -> u16
    recommends
        s.len() == 2,
{
    (((s[0] as u16) << 8) | (s[1] as u16)) as u16
}

/// The 64-bit integer read big-endian from an eight-byte sequence.
pub open spec fn be_u64_of(s: Seq<u8>) -> u64
    recommends
        s.len() == 8,
{
    (((s[0] as u64) << 56) | ((s[1] as u64) << 48) | ((s[2] as u64) << 40)
        | ((s[3] as u64) << 32) | ((s[4] as u64) << 24) | ((s[5] as u64) << 16)
        | ((s[6] as u64) << 8) | (s[7] as u64)) as u64
}

/// The unbounded integer read big-endian from a byte sequence of any length.
pub open spec fn be_nat_of(s: Seq<u8>) -> nat
    decreases s.len(),
{
    if s.len() == 0 {
        0
    } else {
        be_nat_of(s.drop_last()) * 256 + (s.last() as nat)
    }
}

/// Reading back the big-endian bytes of a 16-bit integer yields the integer.
pub proof fn lemma_u16_be_round_trip(x: u16)
    ensures
        be_u16_of(u16_be_bytes(x)) == x,
{
    assert((((((x >> 8) as u8) as u16) << 8) | ((x as u8) as u16)) as u16 == x) by (bit_vector);
}

/// Reading back the big-endian bytes of a 64-bit integer yields the integer.
pub proof fn lemma_u64_be_round_trip(x: u64)
    ensures
        be_u64_of(u64_be_bytes(x)) == x,
{
    let b0 = (x >> 56) as u8;
    let b1 = (x >> 48) as u8;
    let b2 = (x >> 40) as u8;
    let b3 = (x >> 32) as u8;
    let b4 = (x >> 24) as u8;
    let b5 = (x >> 16) as u8;
    let b6 = (x >> 8) as u8;
    let b7 = x as u8;
    let r = be_u64_of(u64_be_bytes(x));
    assert(r == x) by (bit_vector)
        requires
            b0 == (x >> 56) as u8,
            b1 == (x >> 48) as u8,
            b2 == (x >> 40) as u8,
            b3 == (x >> 32) as u8,
            b4 == (x >> 24) as u8,
            b5 == (x >> 16) as u8,
            b6 == (x >> 8) as u8,
            b7 == x as u8,
            r == ((b0 as u64) << 56 | (b1 as u64) << 48 | (b2 as u64) << 40 | (b3 as u64) << 32
                | (b4 as u64) << 24 | (b5 as u64) << 16 | (b6 as u64) << 8 | (b7 as u64)) as u64,
    ;
}

/// A byte sequence reads as zero exactly when every byte is zero.
pub proof fn lemma_be_nat_zero(s: Seq<u8>)
    ensures
        be_nat_of(s) == 0 <==> (forall|i: int| 0 <= i < s.len() ==> s[i] == 0),
    decreases s.len(),
{
    if s.len() > 0 {
        lemma_be_nat_zero(s.drop_last());
        if be_nat_of(s) == 0 {
            assert(forall|i: int| 0 <= i < s.len() - 1 ==> s[i] == s.drop_last()[i]);
        }
        if forall|i: int| 0 <= i < s.len() ==> s[i] == 0 {
            assert(forall|i: int| 0 <= i < s.drop_last().len() ==> s.drop_last()[i] == 0);
        }
    }
}

/// Appends the two big-endian bytes of `x`.
pub fn push_u16_be(out: &mut Vec<u8>, x: u16)
    ensures
        final(out)@ == old(out)@ + u16_be_bytes(x),
{
    out.push((x >> 8) as u8);
    out.push(x as u8);
    proof {
        assert(out@ =~= old(out)@ + u16_be_bytes(x));
    }
}

/// Appends the four big-endian bytes of `x`.
pub fn push_u32_be(out: &mut Vec<u8>, x: u32)
    ensures
        final(out)@ == old(out)@ + u32_be_bytes(x),
{
    out.push((x >> 24) as u8);
    out.push((x >> 16) as u8);
    out.push((x >> 8) as u8);
    out.push(x as u8);
    proof {
        assert(out@ =~= old(out)@ + u32_be_bytes(x));
    }
}

/// Appends the eight big-endian bytes of `x`.
pub fn push_u64_be(out: &mut Vec<u8>, x: u64)
    ensures
        final(out)@ == old(out)@ + u64_be_bytes(x),
{
    out.push((x >> 56) as u8);
    out.push((x >> 48) as u8);
    out.push((x >> 40) as u8);
    out.push((x >> 32) as u8);
    out.push((x >> 24) as u8);
    out.push((x >> 16) as u8);
    out.push((x >> 8) as u8);
    out.push(x as u8);
    proof {
        assert(out@ =~= old(out)@ + u64_be_bytes(x));
    }
}

/// Appends a copy of `src`.
pub fn push_bytes(out: &mut Vec<u8>, src: &Vec<u8>)
    ensures
        final(out)@ == old(out)@ + src@,
{
    let n = src.len();
    let mut i: usize = 0;
    while i < n
        invariant
            n == src@.len(),
            i <= n,
            out@ == old(out)@ + src@.subrange(0, i as int),
        decreases n - i,
    {
        out.push(src[i]);
        proof {
            assert(out@ =~= old(out)@ + src@.subrange(0, i + 1));
        }
        i = i + 1;
    }
    proof {
        assert(out@ =~= old(out)@ + src@);
    }
}

/// Reads the big-endian 16-bit integer at `off`.
pub fn read_u16_be(bytes: &Vec<u8>, off: usize) -> (r: u16)
    requires
        off + 2 <= bytes@.len(),
    ensures
        r == be_u16_of(bytes@.subrange(off as int, off as int + 2)),
{
    // binds the vector's length so that its usize bound is known to the
    // index arithmetic below
    let _n = bytes.len();
    let r = ((bytes[off] as u16) << 8) | (bytes[off + 1] as u16);
    proof {
        let s = bytes@.subrange(off as int, off as int + 2);
        assert(s[0] == bytes@[off as int] && s[1] == bytes@[off as int + 1]);
    }
    r
}

/// Reads the big-endian 64-bit integer at `off`.
pub fn read_u64_be(bytes: &Vec<u8>, off: usize) -> (r: u64)
    requires
        off + 8 <= bytes@.len(),
    ensures
        r == be_u64_of(bytes@.subrange(off as int, off as int + 8)),
{
    let _n = bytes.len();
    let r = ((bytes[off] as u64) << 56) | ((bytes[off + 1] as u64) << 48)
        | ((bytes[off + 2] as u64) << 40) | ((bytes[off + 3] as u64) << 32)
        | ((bytes[off + 4] as u64) << 24) | ((bytes[off + 5] as u64) << 16)
        | ((bytes[off + 6] as u64) << 8) | (bytes[off + 7] as u64);
    proof {
        let s = bytes@.subrange(off as int, off as int + 8);
        assert(forall|k: int| 0 <= k < 8 ==> s[k] == bytes@[off + k]);
    }
    r
}

/// Copies the `n` bytes starting at `off`.
pub fn read_bytes(bytes: &Vec<u8>, off: usize, n: usize) -> (r: Vec<u8>)
    requires
        off + n <= bytes@.len(),
    ensures
        r@ == bytes@.subrange(off as int, off as int + n as int),
{
    let _total = bytes.len();
    let mut r: Vec<u8> = Vec::new();
    let mut i: usize = 0;
    while i < n
        invariant
            _total == bytes@.len(),
            off + n <= bytes@.len(),
            i <= n,
            r@ == bytes@.subrange(off as int, off as int + i as int),
        decreases n - i,
    {
        r.push(bytes[off + i]);
        proof {
            assert(r@ =~= bytes@.subrange(off as int, off as int + i as int + 1));
        }
        i = i + 1;
    }
    r
}

/// Compares two byte vectors for equality of their contents.
pub fn bytes_eq(a: &Vec<u8>, b: &Vec<u8>) -> (r: bool)
    ensures
        r == (a@ == b@),
{
    if a.len() != b.len() {
        return false;
    }
    let n = a.len();
    let mut i: usize = 0;
    while i < n
        invariant
            n == a@.len(),
            a@.len() == b@.len(),
            i <= n,
            forall|j: int| 0 <= j < i ==> a@[j] == b@[j],
        decreases n - i,
    {
        if a[i] != b[i] {
            return false;
        }
        i = i + 1;
    }
    proof {
        assert(a@ =~= b@);
    }
    true
}


/// Copies a byte vector.
pub fn clone_bytes(v: &Vec<u8>) -> (r: Vec<u8>)
    ensures
        r@ == v@,
{
    let r = read_bytes(v, 0, v.len());
    proof {
        assert(v@.subrange(0, v@.len() as int) =~= v@);
    }
    r
}


/// Tests whether a byte sequence reads big-endian as the integer one.
pub fn is_be_one(v: &Vec<u8>) -> (r: bool)
    ensures
        r == (v@.len() > 0 && be_nat_of(v@) == 1),
{
    let n = v.len();
    if n == 0 {
        return false;
    }
    let mut i: usize = 0;
    while i < n - 1
        invariant
            n == v@.len(),
            n >= 1,
            i <= n - 1,
            forall|j: int| 0 <= j < i ==> v@[j] == 0,
        decreases n - 1 - i,
    {
        if v[i] != 0 {
            proof {
                lemma_be_nat_zero(v@.drop_last());
                assert(v@.drop_last()[i as int] != 0);
                assert(be_nat_of(v@.drop_last()) >= 1);
                assert(be_nat_of(v@) >= 256);
            }
            return false;
        }
        i = i + 1;
    }
    proof {
        lemma_be_nat_zero(v@.drop_last());
        assert(forall|j: int| 0 <= j < n - 1 ==> v@.drop_last()[j] == 0);
        assert(be_nat_of(v@.drop_last()) == 0);
        assert(be_nat_of(v@) == v@.last());
    }
    let r = v[n - 1] == 1;
    r
}

} // verus!
