//! The serial number: the device's 96-bit unique ID as 24 hexadecimal digits.

use vstd::prelude::*;

verus! {

/// The lower-case hexadecimal digit for a value below 16.
pub open spec fn hex_digit(v: u8) -> u8 {
    if v < 10 {
        (48 + v) as u8
    } else {
        (87 + v) as u8
    }
}

/// The 24 digits for the 12 bytes of `id`: for each byte its low nibble's
/// digit, then its high nibble's digit.
pub open spec fn spec_hex_id(id: Seq<u8>) -> Seq<u8> {
    Seq::new(
        24,
        |i: int|
            if i % 2 == 0 {
                hex_digit(id[i / 2] & 0x0F)
            } else {
                hex_digit((id[i / 2] & 0xF0) >> 4)
            },
    )
}

fn digit(v: u8) -> (r: u8)
    requires
        v < 16,
    ensures
        r == hex_digit(v),
{
    if v < 10 {
        48 + v
    } else {
        87 + v
    }
}

/// Renders the 12 bytes of the unique ID as 24 ASCII hexadecimal digits.
pub fn get_hex_id(id: &[u8]) -> (out: Vec<u8>)
    requires
        id@.len() == 12,
    ensures
        out@ == spec_hex_id(id@),
        out@.len() == 24,
{
    let mut out: Vec<u8> = Vec::new();
    let mut idx: usize = 0;
    while idx < 12
        invariant
            idx <= 12,
            id@.len() == 12,
            out@.len() == 2 * idx,
            forall|i: int| 0 <= i < 2 * idx ==> out@[i] == spec_hex_id(id@)[i],
        decreases 12 - idx,
    {
        let v: u8 = id[idx];
        let v1: u8 = v & 0x0F;
        let v2: u8 = (v & 0xF0) >> 4;
        assert(v & 0x0F < 16 && (v & 0xF0) >> 4 < 16) by (bit_vector);
        out.push(digit(v1));
        out.push(digit(v2));
        idx += 1;
    }
    assert(out@ =~= spec_hex_id(id@));
    out
}

} // verus!
