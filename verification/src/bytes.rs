//! Fixed-width big-endian integer codec used by the envelope and payload
//! formats, with round-trip lemmas relating the two directions.
use vstd::prelude::*;

verus! {

/// Big-endian encoding of a `u16` as two bytes.
pub open spec fn u16_be(x: u16) -> Seq<u8> {
    seq![(x >> 8) as u8, x as u8]
}

/// The `u16` read big-endian from two bytes.
pub open spec fn u16_of_be(b0: u8, b1: u8) -> u16 {
    ((b0 as u16) << 8) | (b1 as u16)
}

/// Big-endian encoding of a `u32` as four bytes.
pub open spec fn u32_be(x: u32) -> Seq<u8> {
    seq![(x >> 24) as u8, (x >> 16) as u8, (x >> 8) as u8, x as u8]
}

/// The `u32` read big-endian from four bytes.
pub open spec fn u32_of_be(b0: u8, b1: u8, b2: u8, b3: u8) -> u32 {
    ((b0 as u32) << 24) | ((b1 as u32) << 16) | ((b2 as u32) << 8) | (b3 as u32)
}

/// Big-endian encoding of a `u64` as eight bytes.
pub open spec fn u64_be(x: u64) -> Seq<u8> {
    seq![
        (x >> 56) as u8,
        (x >> 48) as u8,
        (x >> 40) as u8,
        (x >> 32) as u8,
        (x >> 24) as u8,
        (x >> 16) as u8,
        (x >> 8) as u8,
        x as u8,
    ]
}

/// The `u64` read big-endian from eight bytes.
pub open spec fn u64_of_be(
    b0: u8,
    b1: u8,
    b2: u8,
    b3: u8,
    b4: u8,
    b5: u8,
    b6: u8,
    b7: u8,
) -> u64 {
    ((b0 as u64) << 56) | ((b1 as u64) << 48) | ((b2 as u64) << 40) | ((b3 as u64) << 32)
        | ((b4 as u64) << 24) | ((b5 as u64) << 16) | ((b6 as u64) << 8) | (b7 as u64)
}

/// Decoding the big-endian bytes of a `u16` yields the value back.
pub proof fn lemma_u16_be_round_trip(x: u16)
    ensures
        u16_of_be(u16_be(x)[0], u16_be(x)[1]) == x,
{
    assert(u16_of_be((x >> 8) as u8, x as u8) == x) by (bit_vector);
}

/// Encoding the `u16` read from two bytes yields the bytes back; so the
/// encoding is injective on values and the decoding on byte pairs.
pub proof fn lemma_u16_of_be_round_trip(b0: u8, b1: u8)
    ensures
        u16_be(u16_of_be(b0, b1)) == seq![b0, b1],
{
    assert((u16_of_be(b0, b1) >> 8) as u8 == b0) by (bit_vector);
    assert(u16_of_be(b0, b1) as u8 == b1) by (bit_vector);
    assert(u16_be(u16_of_be(b0, b1)) =~= seq![b0, b1]);
}

/// Decoding the big-endian bytes of a `u32` yields the value back.
pub proof fn lemma_u32_be_round_trip(x: u32)
    ensures
        u32_of_be(u32_be(x)[0], u32_be(x)[1], u32_be(x)[2], u32_be(x)[3]) == x,
{
    assert(u32_of_be((x >> 24) as u8, (x >> 16) as u8, (x >> 8) as u8, x as u8) == x)
        by (bit_vector);
}

/// Encoding the `u32` read from four bytes yields the bytes back.
pub proof fn lemma_u32_of_be_round_trip(b0: u8, b1: u8, b2: u8, b3: u8)
    ensures
        u32_be(u32_of_be(b0, b1, b2, b3)) == seq![b0, b1, b2, b3],
{
    assert((u32_of_be(b0, b1, b2, b3) >> 24) as u8 == b0) by (bit_vector);
    assert((u32_of_be(b0, b1, b2, b3) >> 16) as u8 == b1) by (bit_vector);
    assert((u32_of_be(b0, b1, b2, b3) >> 8) as u8 == b2) by (bit_vector);
    assert(u32_of_be(b0, b1, b2, b3) as u8 == b3) by (bit_vector);
    assert(u32_be(u32_of_be(b0, b1, b2, b3)) =~= seq![b0, b1, b2, b3]);
}

/// Decoding the big-endian bytes of a `u64` yields the value back.
pub proof fn lemma_u64_be_round_trip(x: u64)
    ensures
        u64_of_be(
            u64_be(x)[0],
            u64_be(x)[1],
            u64_be(x)[2],
            u64_be(x)[3],
            u64_be(x)[4],
            u64_be(x)[5],
            u64_be(x)[6],
            u64_be(x)[7],
        ) == x,
{
    assert(u64_of_be(
        (x >> 56) as u8,
        (x >> 48) as u8,
        (x >> 40) as u8,
        (x >> 32) as u8,
        (x >> 24) as u8,
        (x >> 16) as u8,
        (x >> 8) as u8,
        x as u8,
    ) == x) by (bit_vector);
}

/// Encoding the `u64` read from eight bytes yields the bytes back.
pub proof fn lemma_u64_of_be_round_trip(b0: u8, b1: u8, b2: u8, b3: u8, b4: u8, b5: u8, b6: u8, b7: u8)
    ensures
        u64_be(u64_of_be(b0, b1, b2, b3, b4, b5, b6, b7)) == seq![b0, b1, b2, b3, b4, b5, b6, b7],
{
    let x = u64_of_be(b0, b1, b2, b3, b4, b5, b6, b7);
    assert((u64_of_be(b0, b1, b2, b3, b4, b5, b6, b7) >> 56) as u8 == b0) by (bit_vector);
    assert((u64_of_be(b0, b1, b2, b3, b4, b5, b6, b7) >> 48) as u8 == b1) by (bit_vector);
    assert((u64_of_be(b0, b1, b2, b3, b4, b5, b6, b7) >> 40) as u8 == b2) by (bit_vector);
    assert((u64_of_be(b0, b1, b2, b3, b4, b5, b6, b7) >> 32) as u8 == b3) by (bit_vector);
    assert((u64_of_be(b0, b1, b2, b3, b4, b5, b6, b7) >> 24) as u8 == b4) by (bit_vector);
    assert((u64_of_be(b0, b1, b2, b3, b4, b5, b6, b7) >> 16) as u8 == b5) by (bit_vector);
    assert((u64_of_be(b0, b1, b2, b3, b4, b5, b6, b7) >> 8) as u8 == b6) by (bit_vector);
    assert(u64_of_be(b0, b1, b2, b3, b4, b5, b6, b7) as u8 == b7) by (bit_vector);
    assert(u64_be(x) =~= seq![b0, b1, b2, b3, b4, b5, b6, b7]);
}

/// Reads a big-endian `u16` at `off`.
pub fn read_u16_be(bytes: &Vec<u8>, off: usize) -> (r: u16)
    requires
        off + 2 <= bytes@.len(),
    ensures
        r == u16_of_be(bytes@[off as int], bytes@[off + 1]),
{
    let _len: usize = bytes.len();
    ((bytes[off] as u16) << 8) | (bytes[off + 1] as u16)
}

/// Reads a big-endian `u32` at `off`.
pub fn read_u32_be(bytes: &Vec<u8>, off: usize) -> (r: u32)
    requires
        off + 4 <= bytes@.len(),
    ensures
        r == u32_of_be(bytes@[off as int], bytes@[off + 1], bytes@[off + 2], bytes@[off + 3]),
{
    let _len: usize = bytes.len();
    ((bytes[off] as u32) << 24) | ((bytes[off + 1] as u32) << 16) | ((bytes[off + 2] as u32) << 8)
        | (bytes[off + 3] as u32)
}

/// Reads a big-endian `u64` at `off`.
pub fn read_u64_be(bytes: &Vec<u8>, off: usize) -> (r: u64)
    requires
        off + 8 <= bytes@.len(),
    ensures
        r == u64_of_be(
            bytes@[off as int],
            bytes@[off + 1],
            bytes@[off + 2],
            bytes@[off + 3],
            bytes@[off + 4],
            bytes@[off + 5],
            bytes@[off + 6],
            bytes@[off + 7],
        ),
{
    let _len: usize = bytes.len();
    ((bytes[off] as u64) << 56) | ((bytes[off + 1] as u64) << 48) | ((bytes[off + 2] as u64) << 40)
        | ((bytes[off + 3] as u64) << 32) | ((bytes[off + 4] as u64) << 24)
        | ((bytes[off + 5] as u64) << 16) | ((bytes[off + 6] as u64) << 8)
        | (bytes[off + 7] as u64)
}

/// Copies `bytes[off .. off + n]` into a fresh vector.
pub fn read_bytes(bytes: &Vec<u8>, off: usize, n: usize) -> (r: Vec<u8>)
    requires
        off + n <= bytes@.len(),
    ensures
        r@ == bytes@.subrange(off as int, off + n),
{
    let len: usize = bytes.len();
    let mut out: Vec<u8> = Vec::new();
    let mut i: usize = 0;
    while i < n
        invariant
            off + n <= len,
            len == bytes@.len(),
            i <= n,
            out@ == bytes@.subrange(off as int, off + i),
        decreases n - i,
    {
        out.push(bytes[off + i]);
        proof {
            assert(out@ =~= bytes@.subrange(off as int, off + i + 1));
        }
        i += 1;
    }
    out
}

/// Copies a byte vector.
pub fn clone_bytes(src: &Vec<u8>) -> (r: Vec<u8>)
    ensures
        r@ == src@,
{
    let r = read_bytes(src, 0, src.len());
    proof {
        assert(src@.subrange(0, src@.len() as int) =~= src@);
    }
    r
}

/// Appends a big-endian `u16` to `out`.
pub fn push_u16_be(out: &mut Vec<u8>, x: u16)
    ensures
        final(out)@ == old(out)@ + u16_be(x),
{
    out.push(#[verifier::truncate] ((x >> 8) as u8));
    out.push(#[verifier::truncate] (x as u8));
    proof {
        assert(out@ =~= old(out)@ + u16_be(x));
    }
}

/// Appends a big-endian `u32` to `out`.
pub fn push_u32_be(out: &mut Vec<u8>, x: u32)
    ensures
        final(out)@ == old(out)@ + u32_be(x),
{
    out.push(#[verifier::truncate] ((x >> 24) as u8));
    out.push(#[verifier::truncate] ((x >> 16) as u8));
    out.push(#[verifier::truncate] ((x >> 8) as u8));
    out.push(#[verifier::truncate] (x as u8));
    proof {
        assert(out@ =~= old(out)@ + u32_be(x));
    }
}

/// Appends a big-endian `u64` to `out`.
pub fn push_u64_be(out: &mut Vec<u8>, x: u64)
    ensures
        final(out)@ == old(out)@ + u64_be(x),
{
    out.push(#[verifier::truncate] ((x >> 56) as u8));
    out.push(#[verifier::truncate] ((x >> 48) as u8));
    out.push(#[verifier::truncate] ((x >> 40) as u8));
    out.push(#[verifier::truncate] ((x >> 32) as u8));
    out.push(#[verifier::truncate] ((x >> 24) as u8));
    out.push(#[verifier::truncate] ((x >> 16) as u8));
    out.push(#[verifier::truncate] ((x >> 8) as u8));
    out.push(#[verifier::truncate] (x as u8));
    proof {
        assert(out@ =~= old(out)@ + u64_be(x));
    }
}

/// Appends all of `src` to `out`.
pub fn push_bytes(out: &mut Vec<u8>, src: &Vec<u8>)
    ensures
        final(out)@ == old(out)@ + src@,
{
    let mut i: usize = 0;
    while i < src.len()
        invariant
            i <= src@.len(),
            out@ == old(out)@ + src@.subrange(0, i as int),
        decreases src@.len() - i,
    {
        out.push(src[i]);
        proof {
            assert(out@ =~= old(out)@ + src@.subrange(0, i + 1));
        }
        i += 1;
    }
    proof {
        assert(out@ =~= old(out)@ + src@);
    }
}

} // verus!
