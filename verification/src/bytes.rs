//! Little-endian byte layout of integers and of text.

use vstd::prelude::*;

verus! {

/// The two bytes of `x`, low byte first.
pub open spec fn le16(x: u16) -> Seq<u8> {
    seq![(x & 0xff) as u8, (x >> 8) as u8]
}

/// The four bytes of `x`, lowest byte first.
pub open spec fn le32(x: u32) -> Seq<u8> {
    seq![
        (x & 0xff) as u8,
        ((x >> 8) & 0xff) as u8,
        ((x >> 16) & 0xff) as u8,
        (x >> 24) as u8,
    ]
}

/// The 16-bit value whose low byte is `lo` and whose high byte is `hi`.
pub open spec fn word16(lo: u8, hi: u8) -> u16 {
    (lo as u16) | ((hi as u16) << 8)
}

/// The 32-bit value with bytes `b0` (lowest) to `b3` (highest).
pub open spec fn word32(b0: u8, b1: u8, b2: u8, b3: u8) -> u32 {
    (b0 as u32) | ((b1 as u32) << 8) | ((b2 as u32) << 16) | ((b3 as u32) << 24)
}

/// Splitting a 16-bit value into bytes and joining them gives it back, and
/// the other way round.
pub proof fn lemma_word16(x: u16, lo: u8, hi: u8)
    ensures
        word16((x & 0xff) as u8, (x >> 8) as u8) == x,
        (word16(lo, hi) & 0xff) as u8 == lo,
        (word16(lo, hi) >> 8) as u8 == hi,
        ((lo as u16) & 0xff) as u8 == lo,
        ((lo as u16) >> 8) as u8 == 0,
{
    assert((((x & 0xff) as u8) as u16) | ((((x >> 8) as u8) as u16) << 8) == x) by (bit_vector);
    assert(((((lo as u16) | ((hi as u16) << 8)) & 0xff) as u8) == lo) by (bit_vector);
    assert(((((lo as u16) | ((hi as u16) << 8)) >> 8) as u8) == hi) by (bit_vector);
    assert((((lo as u16) & 0xff) as u8) == lo) by (bit_vector);
    assert((((lo as u16) >> 8) as u8) == 0) by (bit_vector);
}

/// Splitting a 32-bit value into bytes and joining them gives it back.
pub proof fn lemma_word32(x: u32)
    ensures
        word32(le32(x)[0], le32(x)[1], le32(x)[2], le32(x)[3]) == x,
{
    assert(((((x & 0xff) as u8) as u32) | (((((x >> 8) & 0xff) as u8) as u32) << 8) | (((((x >> 16)
        & 0xff) as u8) as u32) << 16) | ((((x >> 24) as u8) as u32) << 24)) == x) by (bit_vector);
}

/// Appends the two bytes of `x`, low byte first.
pub fn push_u16(v: &mut Vec<u8>, x: u16)
    ensures
        final(v)@ == old(v)@ + le16(x),
{
    v.push((x & 0xff) as u8);
    v.push((x >> 8) as u8);
    assert(v@ =~= old(v)@ + le16(x));
}

/// Appends the four bytes of `x`, lowest byte first.
pub fn push_u32(v: &mut Vec<u8>, x: u32)
    ensures
        final(v)@ == old(v)@ + le32(x),
{
    v.push((x & 0xff) as u8);
    v.push(((x >> 8) & 0xff) as u8);
    v.push(((x >> 16) & 0xff) as u8);
    v.push((x >> 24) as u8);
    assert(v@ =~= old(v)@ + le32(x));
}

/// Appends a copy of `data`.
pub fn push_slice(v: &mut Vec<u8>, data: &[u8])
    ensures
        final(v)@ == old(v)@ + data@,
{
    let mut i: usize = 0;
    while i < data.len()
        invariant
            i <= data.len(),
            v@ == old(v)@ + data@.subrange(0, i as int),
        decreases data.len() - i,
    {
        v.push(data[i]);
        i += 1;
        assert(v@ =~= old(v)@ + data@.subrange(0, i as int));
    }
    assert(data@.subrange(0, i as int) =~= data@);
}

/// Text as UTF-16LE code units, one per byte of `text`: each byte is followed
/// by a zero byte. For ASCII text this is its UTF-16LE encoding.
pub open spec fn utf16le(text: Seq<u8>) -> Seq<u8> {
    Seq::new(2 * text.len(), |i: int| if i % 2 == 0 { text[i / 2] } else { 0u8 })
}

/// Appends `text` as UTF-16LE code units.
pub fn push_utf16le(v: &mut Vec<u8>, text: &[u8])
    ensures
        final(v)@ == old(v)@ + utf16le(text@),
{
    let mut i: usize = 0;
    while i < text.len()
        invariant
            i <= text.len(),
            v@ == old(v)@ + utf16le(text@.subrange(0, i as int)),
        decreases text.len() - i,
    {
        v.push(text[i]);
        v.push(0);
        i += 1;
        assert(v@ =~= old(v)@ + utf16le(text@.subrange(0, i as int)));
    }
    assert(text@.subrange(0, i as int) =~= text@);
}

} // verus!
