//! The host's side of JTAG: building the requests that the adapter's JTAG
//! core reads.

use vstd::prelude::*;
use crate::bytes::push_slice;
use crate::jtag::{spec_bytes_for_bits, spec_header_bits, spec_sequences, SequenceView};

verus! {

/// States of a JTAG test access port.
#[derive(Copy, Clone, PartialEq, Eq, Structural, Debug)]
pub enum TAPState {
    TestLogicReset,
    RunTestIdle,
    SelectDRScan,
    CaptureDR,
    ShiftDR,
    Exit1DR,
    PauseDR,
    Exit2DR,
    UpdateDR,
    SelectIRScan,
    CaptureIR,
    ShiftIR,
    Exit1IR,
    PauseIR,
    Exit2IR,
    UpdateIR,
}

/// The header byte of a sequence of `len` clocks: the count in bits 0 to 5,
/// with 0 for 64, TMS in bit 6, capture in bit 7.
pub open spec fn spec_header(len: int, tms: u8, capture: bool) -> u8 {
    (if len == 64 { 0u8 } else { len as u8 }) | (if tms != 0 { 0x40u8 } else { 0u8 }) | (if capture {
        0x80u8
    } else {
        0u8
    })
}

/// `n` bytes of ones, the TDI data of a sequence that has none of its own.
pub open spec fn ones(n: int) -> Seq<u8> {
    Seq::new(n as nat, |i: int| 0xFFu8)
}

/// A request under construction: the sequences one behind the other, their
/// number, and the number of bytes that the adapter will send back.
pub struct SequenceBuilder {
    pub num_sequences: usize,
    pub capture_length: usize,
    pub request: Vec<u8>,
}

impl SequenceBuilder {
    /// The request fits a packet together with its count byte.
    pub open spec fn wf(&self) -> bool {
        1 + self.request@.len() <= 64 && self.num_sequences <= self.request@.len()
            && self.capture_length <= self.request@.len()
    }

    /// An empty request.
    pub fn new() -> (r: SequenceBuilder)
        ensures
            r.wf(),
            r.num_sequences == 0,
            r.capture_length == 0,
            r.request@.len() == 0,
    {
        SequenceBuilder { num_sequences: 0, capture_length: 0, request: Vec::new() }
    }

    /// Appends a sequence of `len` clocks with TMS at `tms`. The bits for
    /// TDI are those of `tdi`, or all ones if there is none.
    pub fn request(self, len: usize, tms: u8, tdi: Option<&[u8]>, capture: bool) -> (r:
        SequenceBuilder)
        requires
            self.wf(),
            len <= 64,
            tdi.is_some() ==> tdi.unwrap()@.len() == spec_bytes_for_bits(len as int),
            1 + self.request@.len() + 1 + spec_bytes_for_bits(len as int) <= 64,
        ensures
            r.wf(),
            r.num_sequences == self.num_sequences + 1,
            r.capture_length == self.capture_length + (if capture {
                spec_bytes_for_bits(len as int)
            } else {
                0
            }),
            r.request@ == self.request@ + seq![spec_header(len as int, tms, capture)] + (match tdi {
                Some(t) => t@,
                None => ones(spec_bytes_for_bits(len as int)),
            }),
    {
        let nbytes: usize = crate::jtag::bytes_for_bits(len);
        let count: u8 = if len == 64 {
            0
        } else {
            len as u8
        };
        let tms_bit: u8 = if tms != 0 {
            0x40
        } else {
            0
        };
        let capture_bit: u8 = if capture {
            0x80
        } else {
            0
        };
        let header: u8 = count | tms_bit | capture_bit;
        let capture_length: usize = if capture {
            self.capture_length + nbytes
        } else {
            self.capture_length
        };
        let mut request: Vec<u8> = self.request;
        request.push(header);
        assert(request@ =~= self.request@ + seq![spec_header(len as int, tms, capture)]);
        match tdi {
            Some(t) => {
                push_slice(&mut request, t);
            },
            None => {
                let ghost before = request@;
                let mut i: usize = 0;
                while i < nbytes
                    invariant
                        i <= nbytes,
                        request@ == before + ones(i as int),
                    decreases nbytes - i,
                {
                    request.push(0xFF);
                    i += 1;
                    assert(request@ =~= before + ones(i as int));
                }
            },
        }
        assert(request@ =~= self.request@ + seq![spec_header(len as int, tms, capture)] + (match tdi {
            Some(t) => t@,
            None => ones(spec_bytes_for_bits(len as int)),
        }));
        SequenceBuilder { num_sequences: self.num_sequences + 1, capture_length, request }
    }

    /// Appends a sequence that sends `tdi` and captures nothing.
    pub fn write(self, len: usize, tms: u8, tdi: &[u8]) -> (r: SequenceBuilder)
        requires
            self.wf(),
            len <= 64,
            tdi@.len() == spec_bytes_for_bits(len as int),
            1 + self.request@.len() + 1 + spec_bytes_for_bits(len as int) <= 64,
        ensures
            r.wf(),
            r.num_sequences == self.num_sequences + 1,
            r.capture_length == self.capture_length,
            r.request@ == self.request@ + seq![spec_header(len as int, tms, false)] + tdi@,
    {
        self.request(len, tms, Some(tdi), false)
    }

    /// Appends a sequence that only moves the state machine: TDI is all
    /// ones and nothing is captured.
    pub fn mode(self, len: usize, tms: u8) -> (r: SequenceBuilder)
        requires
            self.wf(),
            len <= 64,
            1 + self.request@.len() + 1 + spec_bytes_for_bits(len as int) <= 64,
        ensures
            r.wf(),
            r.num_sequences == self.num_sequences + 1,
            r.capture_length == self.capture_length,
            r.request@ == self.request@ + seq![spec_header(len as int, tms, false)] + ones(
                spec_bytes_for_bits(len as int),
            ),
    {
        self.request(len, tms, None, false)
    }

    /// Appends a sequence that captures TDO while TDI is all ones.
    pub fn read(self, len: usize, tms: u8) -> (r: SequenceBuilder)
        requires
            self.wf(),
            len <= 64,
            1 + self.request@.len() + 1 + spec_bytes_for_bits(len as int) <= 64,
        ensures
            r.wf(),
            r.num_sequences == self.num_sequences + 1,
            r.capture_length == self.capture_length + spec_bytes_for_bits(len as int),
            r.request@ == self.request@ + seq![spec_header(len as int, tms, true)] + ones(
                spec_bytes_for_bits(len as int),
            ),
    {
        self.request(len, tms, None, true)
    }

    /// The request as it goes to the adapter: the number of sequences, then
    /// the sequences.
    pub fn to_bytes(self) -> (r: Vec<u8>)
        requires
            self.wf(),
        ensures
            r@ == seq![self.num_sequences as u8] + self.request@,
            r@.len() <= 64,
    {
        let mut r: Vec<u8> = Vec::new();
        r.push(self.num_sequences as u8);
        push_slice(&mut r, self.request.as_slice());
        r
    }
}

/// What the builder appends, the adapter reads back: a sequence of 1 to 64
/// clocks, written as its header and its TDI bytes in front of `rest`, is read
/// as that sequence, followed by what is read from `rest`.
pub proof fn lemma_sequence_round_trip(
    len: int,
    tms: u8,
    capture: bool,
    tdi: Seq<u8>,
    rest: Seq<u8>,
    nseqs: int,
)
    requires
        1 <= len <= 64,
        tdi.len() == spec_bytes_for_bits(len),
        nseqs >= 1,
    ensures
        spec_header_bits(spec_header(len, tms, capture)) == len,
        spec_sequences(seq![spec_header(len, tms, capture)] + tdi + rest, nseqs) == seq![
            SequenceView { tms: tms != 0, capture, nbits: len, tdi },
        ] + spec_sequences(rest, nseqs - 1),
{
    let l: u8 = if len == 64 {
        0u8
    } else {
        len as u8
    };
    let t: u8 = if tms != 0 {
        0x40u8
    } else {
        0u8
    };
    let c: u8 = if capture {
        0x80u8
    } else {
        0u8
    };
    let header = spec_header(len, tms, capture);
    assert(header == l | t | c);
    assert((l | t | c) & 0x3F == l && ((l | t | c) & 0x40 != 0) == (t != 0) && ((l | t | c) & 0x80
        != 0) == (c != 0)) by (bit_vector)
        requires
            l < 64,
            t == 0 || t == 0x40,
            c == 0 || c == 0x80,
    ;
    let body = seq![header] + tdi + rest;
    assert(body[0] == header);
    assert(body.subrange(1, 1 + tdi.len() as int) =~= tdi);
    assert(body.skip(1 + tdi.len() as int) =~= rest);
}

} // verus!
