//! Big-endian byte-level primitives shared by all wire encodings.

use vstd::prelude::*;

verus! {

/// Big-endian image of a 16-bit integer: two bytes, most significant first.
pub open spec fn be16(x: u16) -> Seq<u8> {
    seq![(x >> 8) as u8, (x & 0xff) as u8]
}

/// Big-endian image of a 32-bit integer.
pub open spec fn be32(x: u32) -> Seq<u8> {
    seq![
        (x >> 24) as u8,
        ((x >> 16) & 0xff) as u8,
        ((x >> 8) & 0xff) as u8,
        (x & 0xff) as u8,
    ]
}

/// Big-endian image of a 64-bit integer.
pub open spec fn be64(x: u64) -> Seq<u8> {
    seq![
        (x >> 56) as u8,
        ((x >> 48) & 0xff) as u8,
        ((x >> 40) & 0xff) as u8,
        ((x >> 32) & 0xff) as u8,
        ((x >> 24) & 0xff) as u8,
        ((x >> 16) & 0xff) as u8,
        ((x >> 8) & 0xff) as u8,
        (x & 0xff) as u8,
    ]
}

/// The 16-bit integer formed from two big-endian bytes.
pub open spec fn u16_from_be(b0: u8, b1: u8) -> u16 {
    ((b0 as u16) << 8) | (b1 as u16)
}

/// The 32-bit integer formed from four big-endian bytes.
pub open spec fn u32_from_be(b0: u8, b1: u8, b2: u8, b3: u8) -> u32 {
    ((b0 as u32) << 24) | ((b1 as u32) << 16) | ((b2 as u32) << 8) | (b3 as u32)
}

/// The 64-bit integer formed from eight big-endian bytes.
pub open spec fn u64_from_be(
    b0: u8, b1: u8, b2: u8, b3: u8, b4: u8, b5: u8, b6: u8, b7: u8,
) -> u64 {
    ((b0 as u64) << 56) | ((b1 as u64) << 48) | ((b2 as u64) << 40) | ((b3 as u64) << 32)
        | ((b4 as u64) << 24) | ((b5 as u64) << 16) | ((b6 as u64) << 8) | (b7 as u64)
}

/// Reading back the two bytes of `be16` restores the integer.
pub proof fn lemma_be16_round(x: u16)
    ensures
        u16_from_be(be16(x)[0], be16(x)[1]) == x,
{
    assert((((x >> 8) as u8 as u16) << 8) | ((x & 0xff) as u8 as u16) == x) by (bit_vector);
}

/// Reading back the four bytes of `be32` restores the integer.
pub proof fn lemma_be32_round(x: u32)
    ensures
        u32_from_be(be32(x)[0], be32(x)[1], be32(x)[2], be32(x)[3]) == x,
{
    assert((((x >> 24) as u8 as u32) << 24) | ((((x >> 16) & 0xff) as u8 as u32) << 16)
        | ((((x >> 8) & 0xff) as u8 as u32) << 8) | ((x & 0xff) as u8 as u32) == x)
        by (bit_vector);
}

/// Reading back the eight bytes of `be64` restores the integer.
pub proof fn lemma_be64_round(x: u64)
    ensures
        u64_from_be(
            be64(x)[0], be64(x)[1], be64(x)[2], be64(x)[3],
            be64(x)[4], be64(x)[5], be64(x)[6], be64(x)[7],
        ) == x,
{
    assert((((x >> 56) as u8 as u64) << 56) | ((((x >> 48) & 0xff) as u8 as u64) << 48)
        | ((((x >> 40) & 0xff) as u8 as u64) << 40) | ((((x >> 32) & 0xff) as u8 as u64) << 32)
        | ((((x >> 24) & 0xff) as u8 as u64) << 24) | ((((x >> 16) & 0xff) as u8 as u64) << 16)
        | ((((x >> 8) & 0xff) as u8 as u64) << 8) | ((x & 0xff) as u8 as u64) == x)
        by (bit_vector);
}

/// Append the big-endian encoding of a 16-bit integer.
pub fn encode_u16(out: &mut Vec<u8>, x: u16)
    ensures
        final(out)@ == old(out)@ + be16(x),
{
    proof {
        assert(x >> 8 <= 0xff && x & 0xff <= 0xff) by (bit_vector);
    }
    out.push((x >> 8) as u8);
    out.push((x & 0xff) as u8);
    assert(out@ =~= old(out)@ + be16(x));
}

/// Append the big-endian encoding of a 32-bit integer.
pub fn encode_u32(out: &mut Vec<u8>, x: u32)
    ensures
        final(out)@ == old(out)@ + be32(x),
{
    proof {
        assert(x >> 24 <= 0xff) by (bit_vector);
    }
    out.push((x >> 24) as u8);
    out.push(((x >> 16) & 0xff) as u8);
    out.push(((x >> 8) & 0xff) as u8);
    out.push((x & 0xff) as u8);
    assert(out@ =~= old(out)@ + be32(x));
}

/// Append the big-endian encoding of a 64-bit integer.
pub fn encode_u64(out: &mut Vec<u8>, x: u64)
    ensures
        final(out)@ == old(out)@ + be64(x),
{
    proof {
        assert(x >> 56 <= 0xff) by (bit_vector);
    }
    out.push((x >> 56) as u8);
    out.push(((x >> 48) & 0xff) as u8);
    out.push(((x >> 40) & 0xff) as u8);
    out.push(((x >> 32) & 0xff) as u8);
    out.push(((x >> 24) & 0xff) as u8);
    out.push(((x >> 16) & 0xff) as u8);
    out.push(((x >> 8) & 0xff) as u8);
    out.push((x & 0xff) as u8);
    assert(out@ =~= old(out)@ + be64(x));
}

/// Read a 16-bit big-endian integer at offset `i`.
pub fn read_u16(bytes: &Vec<u8>, i: usize) -> (r: u16)
    requires
        i + 2 <= bytes@.len(),
    ensures
        r == u16_from_be(bytes@[i as int], bytes@[i + 1]),
{
    // An exec length read establishes that the vector's length, and with it
    // every offset below, fits a machine word.
    let _n: usize = bytes.len();
    ((bytes[i] as u16) << 8) | (bytes[i + 1] as u16)
}

/// Read a 32-bit big-endian integer at offset `i`.
pub fn read_u32(bytes: &Vec<u8>, i: usize) -> (r: u32)
    requires
        i + 4 <= bytes@.len(),
    ensures
        r == u32_from_be(bytes@[i as int], bytes@[i + 1], bytes@[i + 2], bytes@[i + 3]),
{
    // An exec length read establishes that the vector's length, and with it
    // every offset below, fits a machine word.
    let _n: usize = bytes.len();
    ((bytes[i] as u32) << 24) | ((bytes[i + 1] as u32) << 16) | ((bytes[i + 2] as u32) << 8)
        | (bytes[i + 3] as u32)
}

/// Read a 64-bit big-endian integer at offset `i`.
pub fn read_u64(bytes: &Vec<u8>, i: usize) -> (r: u64)
    requires
        i + 8 <= bytes@.len(),
    ensures
        r == u64_from_be(
            bytes@[i as int], bytes@[i + 1], bytes@[i + 2], bytes@[i + 3],
            bytes@[i + 4], bytes@[i + 5], bytes@[i + 6], bytes@[i + 7],
        ),
{
    // An exec length read establishes that the vector's length, and with it
    // every offset below, fits a machine word.
    let _n: usize = bytes.len();
    ((bytes[i] as u64) << 56) | ((bytes[i + 1] as u64) << 48) | ((bytes[i + 2] as u64) << 40)
        | ((bytes[i + 3] as u64) << 32) | ((bytes[i + 4] as u64) << 24)
        | ((bytes[i + 5] as u64) << 16) | ((bytes[i + 6] as u64) << 8) | (bytes[i + 7] as u64)
}

/// Append `n` bytes of `src` starting at offset `from`.
pub fn append_range(out: &mut Vec<u8>, src: &Vec<u8>, from: usize, n: usize)
    requires
        from + n <= src@.len(),
    ensures
        final(out)@ == old(out)@ + src@.subrange(from as int, from + n),
{
    let src_len: usize = src.len();
    let mut j: usize = 0;
    while j < n
        invariant
            from + n <= src_len == src@.len(),
            j <= n,
            out@ == old(out)@ + src@.subrange(from as int, from + j),
        decreases n - j,
    {
        out.push(src[from + j]);
        assert(out@ =~= old(out)@ + src@.subrange(from as int, from + j + 1));
        j = j + 1;
    }
    assert(out@ =~= old(out)@ + src@.subrange(from as int, from + n));
}

/// Copy `n` bytes of `src` starting at offset `from` into a fresh vector.
pub fn copy_range(src: &Vec<u8>, from: usize, n: usize) -> (r: Vec<u8>)
    requires
        from + n <= src@.len(),
    ensures
        r@ == src@.subrange(from as int, from + n),
{
    let mut out: Vec<u8> = Vec::new();
    append_range(&mut out, src, from, n);
    out
}

} // verus!
