//! Big-endian byte order, as IEC 61850-9-2 uses on the wire.
//!
//! Every multi-byte integer of a sampled-value frame is network byte
//! order. The spec functions here are the mathematical form of that
//! encoding; the exec functions append to or read from a byte buffer and
//! are proved against them.

use vstd::prelude::*;

verus! {

/// The two big-endian bytes of a 16-bit word.
pub open spec fn spec_u16_be(x: u16) -> Seq<u8> {
    seq![((x >> 8) & 0xff) as u8, (x & 0xff) as u8]
}

/// The 16-bit word read from two big-endian bytes.
pub open spec fn spec_u16_from_be(b0: u8, b1: u8) -> u16 {
    ((b0 as u16) << 8) | (b1 as u16)
}

/// The four big-endian bytes of a 32-bit word.
pub open spec fn spec_u32_be(x: u32) -> Seq<u8> {
    seq![
        ((x >> 24) & 0xff) as u8,
        ((x >> 16) & 0xff) as u8,
        ((x >> 8) & 0xff) as u8,
        (x & 0xff) as u8,
    ]
}

/// The 32-bit word read from four big-endian bytes.
pub open spec fn spec_u32_from_be(b0: u8, b1: u8, b2: u8, b3: u8) -> u32 {
    ((b0 as u32) << 24) | ((b1 as u32) << 16) | ((b2 as u32) << 8) | (b3 as u32)
}

/// The four big-endian bytes of a signed 32-bit sample, two's complement.
pub open spec fn spec_i32_be(x: i32) -> Seq<u8> {
    spec_u32_be(x as u32)
}

/// The signed 32-bit sample read from four big-endian bytes.
pub open spec fn spec_i32_from_be(b0: u8, b1: u8, b2: u8, b3: u8) -> i32 {
    spec_u32_from_be(b0, b1, b2, b3) as i32
}

/// Append a 16-bit word in big-endian order.
pub fn push_u16_be(out: &mut Vec<u8>, x: u16)
    ensures
        final(out)@ == old(out)@ + spec_u16_be(x),
{
    out.push(((x >> 8) & 0xff) as u8);
    out.push((x & 0xff) as u8);
    proof {
        assert(out@ =~= old(out)@ + spec_u16_be(x));
    }
}

/// Append a 32-bit word in big-endian order.
pub fn push_u32_be(out: &mut Vec<u8>, x: u32)
    ensures
        final(out)@ == old(out)@ + spec_u32_be(x),
{
    out.push(((x >> 24) & 0xff) as u8);
    out.push(((x >> 16) & 0xff) as u8);
    out.push(((x >> 8) & 0xff) as u8);
    out.push((x & 0xff) as u8);
    proof {
        assert(out@ =~= old(out)@ + spec_u32_be(x));
    }
}

/// Append a signed 32-bit sample in big-endian order.
pub fn push_i32_be(out: &mut Vec<u8>, x: i32)
    ensures
        final(out)@ == old(out)@ + spec_i32_be(x),
{
    push_u32_be(out, x as u32);
}

/// Read a 16-bit word from two big-endian bytes.
pub fn u16_from_be(b0: u8, b1: u8) -> (r: u16)
    ensures
        r == spec_u16_from_be(b0, b1),
{
    ((b0 as u16) << 8) | (b1 as u16)
}

/// Read a 32-bit word from four big-endian bytes.
pub fn u32_from_be(b0: u8, b1: u8, b2: u8, b3: u8) -> (r: u32)
    ensures
        r == spec_u32_from_be(b0, b1, b2, b3),
{
    ((b0 as u32) << 24) | ((b1 as u32) << 16) | ((b2 as u32) << 8) | (b3 as u32)
}

/// Read a signed 32-bit sample from four big-endian bytes.
pub fn i32_from_be(b0: u8, b1: u8, b2: u8, b3: u8) -> (r: i32)
    ensures
        r == spec_i32_from_be(b0, b1, b2, b3),
{
    u32_from_be(b0, b1, b2, b3) as i32
}

/// The four big-endian bytes of a 32-bit word, as a fixed array.
pub open spec fn spec_u32_be_arr(x: u32) -> [u8; 4] {
    [((x >> 24) & 0xff) as u8, ((x >> 16) & 0xff) as u8, ((x >> 8) & 0xff) as u8, (x & 0xff) as u8]
}

/// The array form of the encoding views to its sequence form.
pub proof fn lemma_u32_be_arr_view(x: u32)
    ensures
        spec_u32_be_arr(x)@ == spec_u32_be(x),
{
    assert(spec_u32_be_arr(x)@ =~= spec_u32_be(x));
}

/// Write a 32-bit word as four big-endian bytes.
pub fn u32_to_be_arr(x: u32) -> (r: [u8; 4])
    ensures
        r == spec_u32_be_arr(x),
        r@ == spec_u32_be(x),
{
    let r: [u8; 4] = [
        ((x >> 24) & 0xff) as u8,
        ((x >> 16) & 0xff) as u8,
        ((x >> 8) & 0xff) as u8,
        (x & 0xff) as u8,
    ];
    proof {
        assert(r =~= spec_u32_be_arr(x));
        lemma_u32_be_arr_view(x);
    }
    r
}

/// Reading back the two bytes of a 16-bit word yields the word.
pub proof fn lemma_u16_be_round(x: u16)
    ensures
        spec_u16_from_be(spec_u16_be(x)[0], spec_u16_be(x)[1]) == x,
{
    assert(((((x >> 8) & 0xff) as u8 as u16) << 8) | ((x & 0xff) as u8 as u16) == x)
        by (bit_vector);
}

/// Reading back the four bytes of a 32-bit word yields the word.
pub proof fn lemma_u32_be_round(x: u32)
    ensures
        spec_u32_from_be(spec_u32_be(x)[0], spec_u32_be(x)[1], spec_u32_be(x)[2], spec_u32_be(x)[3])
            == x,
{
    assert(((((x >> 24) & 0xff) as u8 as u32) << 24) | ((((x >> 16) & 0xff) as u8 as u32) << 16)
        | ((((x >> 8) & 0xff) as u8 as u32) << 8) | ((x & 0xff) as u8 as u32) == x)
        by (bit_vector);
}

/// Reading back the four bytes of a signed sample yields the sample.
pub proof fn lemma_i32_be_round(x: i32)
    ensures
        spec_i32_from_be(spec_i32_be(x)[0], spec_i32_be(x)[1], spec_i32_be(x)[2], spec_i32_be(x)[3])
            == x,
{
    lemma_u32_be_round(x as u32);
    assert((x as u32) as i32 == x) by (bit_vector);
}

} // verus!
