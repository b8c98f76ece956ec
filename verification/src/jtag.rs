//! The JTAG core: the framing of `DAP_JTAG_Sequence`, the bit that goes out on
//! each clock, and the packing of the bits that come back.

use vstd::prelude::*;

verus! {

/// One sequence of a request: up to 64 clocks with a fixed TMS.
pub struct Sequence {
    /// Level of TMS for the whole sequence.
    pub tms: bool,
    /// TDO is sampled on every clock.
    pub capture: bool,
    /// Number of clocks, 1 to 64.
    pub nbits: usize,
    /// The bits for TDI, least significant bit of the first byte first.
    pub tdi: Vec<u8>,
}

/// The number of bytes that hold `bits` bits.
pub open spec fn spec_bytes_for_bits(bits: int) -> int {
    (bits + 7) / 8
}

pub fn bytes_for_bits(bits: usize) -> (r: usize)
    requires
        bits <= 0x7fff_ffff,
    ensures
        r == spec_bytes_for_bits(bits as int),
{
    (bits + 7) / 8
}

/// The number of clocks that a header byte asks for: its low six bits, where
/// 0 stands for 64.
pub open spec fn spec_header_bits(header: u8) -> int {
    if header & 0x3F == 0 {
        64
    } else {
        (header & 0x3F) as int
    }
}

/// The view of a sequence: plain values.
pub struct SequenceView {
    pub tms: bool,
    pub capture: bool,
    pub nbits: int,
    pub tdi: Seq<u8>,
}

impl Sequence {
    pub open spec fn view(&self) -> SequenceView {
        SequenceView {
            tms: self.tms,
            capture: self.capture,
            nbits: self.nbits as int,
            tdi: self.tdi@,
        }
    }

    pub open spec fn wf(&self) -> bool {
        1 <= self.nbits <= 64 && self.tdi@.len() == spec_bytes_for_bits(self.nbits as int)
    }

    /// The level of TDI on clock `i`.
    pub open spec fn spec_tdi_bit(&self, i: int) -> bool {
        self.tdi@[i / 8] & (1u8 << ((i % 8) as u8)) != 0
    }

    pub fn tdi_bit(&self, i: usize) -> (r: bool)
        requires
            self.wf(),
            i < self.nbits,
        ensures
            r == self.spec_tdi_bit(i as int),
    {
        let byte: u8 = self.tdi[i / 8];
        let k: u8 = (i % 8) as u8;
        byte & (1u8 << k) != 0
    }
}

/// Bit `k` of the byte that packs the samples `tdo` from index `base` on: a
/// sample that is high sets its bit; bits behind the last sample are zero.
pub open spec fn packed_bit(tdo: Seq<bool>, base: int, k: int) -> bool {
    base + k < tdo.len() && tdo[base + k]
}

/// The byte that packs up to eight samples from index `base` on, the first
/// of them in bit 0.
pub open spec fn packed_byte(tdo: Seq<bool>, base: int) -> u8 {
    ((if packed_bit(tdo, base, 0) { 1u8 } else { 0u8 }) | (if packed_bit(tdo, base, 1) {
        2u8
    } else {
        0u8
    }) | (if packed_bit(tdo, base, 2) { 4u8 } else { 0u8 }) | (if packed_bit(tdo, base, 3) {
        8u8
    } else {
        0u8
    }) | (if packed_bit(tdo, base, 4) { 16u8 } else { 0u8 }) | (if packed_bit(tdo, base, 5) {
        32u8
    } else {
        0u8
    }) | (if packed_bit(tdo, base, 6) { 64u8 } else { 0u8 }) | (if packed_bit(tdo, base, 7) {
        128u8
    } else {
        0u8
    }))
}

/// The bytes that a capturing sequence gives back for the samples `tdo` of
/// its clocks: eight samples to a byte, least significant bit first.
pub open spec fn spec_pack_tdo(tdo: Seq<bool>) -> Seq<u8> {
    Seq::new(spec_bytes_for_bits(tdo.len() as int) as nat, |j: int| packed_byte(tdo, 8 * j))
}

fn sample_bit(tdo: &[bool], idx: usize, weight: u8) -> (r: u8)
    ensures
        r == (if idx < tdo@.len() && tdo@[idx as int] { weight } else { 0u8 }),
{
    if idx < tdo.len() && tdo[idx] {
        weight
    } else {
        0
    }
}

/// Packs the TDO samples of one sequence into bytes.
pub fn pack_tdo(tdo: &[bool]) -> (r: Vec<u8>)
    requires
        tdo@.len() <= 64,
    ensures
        r@ == spec_pack_tdo(tdo@),
{
    let nbytes: usize = bytes_for_bits(tdo.len());
    let mut r: Vec<u8> = Vec::new();
    let mut j: usize = 0;
    while j < nbytes
        invariant
            j <= nbytes,
            nbytes == spec_bytes_for_bits(tdo@.len() as int),
            tdo@.len() <= 64,
            r@.len() == j,
            forall|i: int| 0 <= i < j ==> r@[i] == packed_byte(tdo@, 8 * i),
        decreases nbytes - j,
    {
        let base: usize = 8 * j;
        let byte: u8 = sample_bit(tdo, base, 1) | sample_bit(tdo, base + 1, 2) | sample_bit(
            tdo,
            base + 2,
            4,
        ) | sample_bit(tdo, base + 3, 8) | sample_bit(tdo, base + 4, 16) | sample_bit(
            tdo,
            base + 5,
            32,
        ) | sample_bit(tdo, base + 6, 64) | sample_bit(tdo, base + 7, 128);
        r.push(byte);
        j += 1;
    }
    assert(r@ =~= spec_pack_tdo(tdo@));
    r
}

/// The sequences of a request body, of which at most `nseqs` are taken.
/// Each is a header byte (bits 0 to 5 the number of clocks, bit 6 the level
/// of TMS, bit 7 whether TDO is captured) and the bytes that hold its TDI
/// bits. The list ends where the body does, or where it is too short for the
/// sequence that its header announces.
pub open spec fn spec_sequences(body: Seq<u8>, nseqs: int) -> Seq<SequenceView>
    decreases body.len(),
{
    if nseqs <= 0 || body.len() == 0 {
        Seq::empty()
    } else {
        let header = body[0];
        let nbits = spec_header_bits(header);
        let nbytes = spec_bytes_for_bits(nbits);
        if body.len() - 1 < nbytes {
            Seq::empty()
        } else {
            seq![
                SequenceView {
                    tms: header & 0x40 != 0,
                    capture: header & 0x80 != 0,
                    nbits,
                    tdi: body.subrange(1, 1 + nbytes),
                },
            ] + spec_sequences(body.skip(1 + nbytes), nseqs - 1)
        }
    }
}

/// The JTAG core.
pub struct JTAG {
    /// TCK, TDI and TDO lie on one port, so that each edge is one register
    /// write.
    pub pins_same_port: bool,
}

impl JTAG {
    /// A core for a board where the three pins share a port or do not.
    pub fn new(pins_same_port: bool) -> (r: JTAG)
        ensures
            r.pins_same_port == pins_same_port,
    {
        JTAG { pins_same_port }
    }

    /// Reads the sequences of a `DAP_JTAG_Sequence` request: byte 0 is the
    /// number of sequences, and the sequences follow.
    pub fn sequences(&self, data: &[u8]) -> (r: Vec<Sequence>)
        ensures
            data@.len() == 0 ==> r@.len() == 0,
            data@.len() > 0 ==> r@.map_values(|s: Sequence| s@) == spec_sequences(
                data@.skip(1),
                data@[0] as int,
            ),
            forall|i: int| 0 <= i < r@.len() ==> #[trigger] r@[i].wf(),
    {
        let mut out: Vec<Sequence> = Vec::new();
        if data.len() == 0 {
            return out;
        }
        let nseqs: u8 = data[0];
        let ghost body = data@.skip(1);
        let mut pos: usize = 1;
        let mut n: u8 = 0;
        assert(data@.skip(1).skip(0) =~= data@.skip(1));
        while n < nseqs
            invariant
                1 <= pos <= data@.len(),
                n <= nseqs,
                body == data@.skip(1),
                forall|i: int| 0 <= i < out@.len() ==> #[trigger] out@[i].wf(),
                out@.map_values(|s: Sequence| s@) + spec_sequences(
                    body.skip(pos - 1),
                    nseqs - n,
                ) == spec_sequences(body, nseqs as int),
            ensures
                spec_sequences(body.skip(pos - 1), nseqs - n) == Seq::<SequenceView>::empty(),
            decreases nseqs - n,
        {
            let ghost rest = body.skip(pos - 1);
            if pos >= data.len() {
                assert(rest.len() == 0);
                assert(spec_sequences(rest, nseqs - n) =~= Seq::<SequenceView>::empty());
                break ;
            }
            let header: u8 = data[pos];
            assert(rest[0] == header);
            let low: u8 = header & 0x3F;
            assert(low < 64) by (bit_vector)
                requires
                    low == header & 0x3F,
            ;
            let nbits: usize = if low == 0 {
                64
            } else {
                low as usize
            };
            let nbytes: usize = bytes_for_bits(nbits);
            if data.len() - pos - 1 < nbytes {
                assert(spec_sequences(rest, nseqs - n) =~= Seq::<SequenceView>::empty());
                break ;
            }
            let mut tdi: Vec<u8> = Vec::new();
            let chunk = vstd::slice::slice_subrange(data, pos + 1, pos + 1 + nbytes);
            crate::bytes::push_slice(&mut tdi, chunk);
            let seq = Sequence { tms: header & 0x40 != 0, capture: header & 0x80 != 0, nbits, tdi };
            proof {
                assert(seq.tdi@ =~= rest.subrange(1, 1 + nbytes));
                assert(rest.skip(1 + nbytes) =~= body.skip(pos + nbytes));
                let before = out@.map_values(|s: Sequence| s@);
                assert(out@.push(seq).map_values(|s: Sequence| s@) =~= before + seq![seq@]);
                assert(spec_sequences(rest, nseqs - n) =~= seq![seq@] + spec_sequences(
                    body.skip(pos + nbytes),
                    nseqs - n - 1,
                ));
            }
            out.push(seq);
            pos = pos + 1 + nbytes;
            n += 1;
        }
        proof {
            assert(out@.map_values(|s: Sequence| s@) + Seq::<SequenceView>::empty()
                =~= out@.map_values(|s: Sequence| s@));
        }
        out
    }
}

} // verus!
