//! The SWD core: request framing, acknowledgement, parity and WAIT retries.
//!
//! A transaction is a request byte, an acknowledgement from the target and,
//! if that is OK, a data phase. The functions here compute the request and
//! decide, from what the target answered, how the transaction goes on.

use vstd::prelude::*;
use crate::spi::{SPIClock, SPI};

verus! {

/// Why an SWD transaction failed.
#[derive(Copy, Clone, PartialEq, Eq, Structural, Debug)]
pub enum Error {
    BadParity,
    AckWait,
    AckFault,
    AckProtocol,
    AckUnknown(u8),
    AckWaitTimeout,
}

/// Registers of the debug port.
#[derive(Copy, Clone, PartialEq, Eq, Structural, Debug)]
pub enum DPRegister {
    DPIDR,
    CTRLSTAT,
    SELECT,
    RDBUFF,
}

impl DPRegister {
    /// The two address bits of a register.
    pub open spec fn spec_addr(self) -> u8 {
        match self {
            DPRegister::DPIDR => 0u8,
            DPRegister::CTRLSTAT => 1u8,
            DPRegister::SELECT => 2u8,
            DPRegister::RDBUFF => 3u8,
        }
    }

    pub fn addr(self) -> (r: u8)
        ensures
            r == self.spec_addr(),
    {
        match self {
            DPRegister::DPIDR => 0,
            DPRegister::CTRLSTAT => 1,
            DPRegister::SELECT => 2,
            DPRegister::RDBUFF => 3,
        }
    }
}

/// Access port or debug port.
#[derive(Copy, Clone, PartialEq, Eq, Structural, Debug)]
#[allow(non_camel_case_types)]
pub enum APnDP {
    DP,
    AP,
}

/// Read or write.
#[derive(Copy, Clone, PartialEq, Eq, Structural, Debug)]
pub enum RnW {
    W,
    R,
}

impl APnDP {
    pub fn from_bool(ap: bool) -> (r: APnDP)
        ensures
            r == (if ap { APnDP::AP } else { APnDP::DP }),
    {
        if ap {
            APnDP::AP
        } else {
            APnDP::DP
        }
    }
}

/// Acknowledgements of the target.
#[derive(Copy, Clone, PartialEq, Eq, Structural, Debug)]
pub enum ACK {
    OK,
    WAIT,
    FAULT,
    PROTOCOL,
}

impl ACK {
    /// What the three acknowledgement bits mean: 001 is OK, 010 is WAIT, 100
    /// is FAULT, 111 is a protocol error, anything else is unknown.
    pub open spec fn spec_check_ok(ack: u8) -> Result<(), Error> {
        if ack == 0b001 {
            Ok(())
        } else if ack == 0b010 {
            Err(Error::AckWait)
        } else if ack == 0b100 {
            Err(Error::AckFault)
        } else if ack == 0b111 {
            Err(Error::AckProtocol)
        } else {
            Err(Error::AckUnknown(ack))
        }
    }

    pub fn check_ok(ack: u8) -> (r: Result<(), Error>)
        ensures
            r == Self::spec_check_ok(ack),
    {
        if ack == 0b001 {
            Ok(())
        } else if ack == 0b010 {
            Err(Error::AckWait)
        } else if ack == 0b100 {
            Err(Error::AckFault)
        } else if ack == 0b111 {
            Err(Error::AckProtocol)
        } else {
            Err(Error::AckUnknown(ack))
        }
    }
}

/// Bit `i` of `x`.
pub open spec fn bit(x: u32, i: u32) -> u32 {
    (x >> i) & 1
}

/// Parity of the low eight bits of `x`.
pub open spec fn parity8(x: u32) -> u32 {
    bit(x, 0) ^ bit(x, 1) ^ bit(x, 2) ^ bit(x, 3) ^ bit(x, 4) ^ bit(x, 5) ^ bit(x, 6) ^ bit(x, 7)
}

/// Parity of `x`: 1 if the number of its one bits is odd, else 0.
pub open spec fn spec_parity(x: u32) -> u32 {
    parity8(x) ^ parity8(x >> 8) ^ parity8(x >> 16) ^ parity8(x >> 24)
}

/// Computes the parity of a 32-bit word.
pub fn parity(x: u32) -> (p: u32)
    ensures
        p == spec_parity(x),
        p <= 1,
{
    let a: u32 = x ^ (x >> 16);
    let b: u32 = a ^ (a >> 8);
    let c: u32 = b ^ (b >> 4);
    let d: u32 = c ^ (c >> 2);
    let e: u32 = d ^ (d >> 1);
    // Folding the word onto itself leaves the parity of all 32 bits in bit 0.
    assert(((((x ^ (x >> 16)) ^ ((x ^ (x >> 16)) >> 8)) ^ (((x ^ (x >> 16)) ^ ((x ^ (x >> 16))
        >> 8)) >> 4)) ^ ((((x ^ (x >> 16)) ^ ((x ^ (x >> 16)) >> 8)) ^ (((x ^ (x >> 16)) ^ ((x ^ (x
        >> 16)) >> 8)) >> 4)) >> 2) ^ (((((x ^ (x >> 16)) ^ ((x ^ (x >> 16)) >> 8)) ^ (((x ^ (x
        >> 16)) ^ ((x ^ (x >> 16)) >> 8)) >> 4)) ^ ((((x ^ (x >> 16)) ^ ((x ^ (x >> 16)) >> 8)) ^ (((x
        ^ (x >> 16)) ^ ((x ^ (x >> 16)) >> 8)) >> 4)) >> 2)) >> 1)) & 1 == ((((x >> 0u32) & 1) ^ ((x
        >> 1u32) & 1) ^ ((x >> 2u32) & 1) ^ ((x >> 3u32) & 1) ^ ((x >> 4u32) & 1) ^ ((x >> 5u32) & 1)
        ^ ((x >> 6u32) & 1) ^ ((x >> 7u32) & 1)) ^ ((((x >> 8) >> 0u32) & 1) ^ (((x >> 8) >> 1u32)
        & 1) ^ (((x >> 8) >> 2u32) & 1) ^ (((x >> 8) >> 3u32) & 1) ^ (((x >> 8) >> 4u32) & 1) ^ (((x
        >> 8) >> 5u32) & 1) ^ (((x >> 8) >> 6u32) & 1) ^ (((x >> 8) >> 7u32) & 1)) ^ ((((x >> 16)
        >> 0u32) & 1) ^ (((x >> 16) >> 1u32) & 1) ^ (((x >> 16) >> 2u32) & 1) ^ (((x >> 16) >> 3u32)
        & 1) ^ (((x >> 16) >> 4u32) & 1) ^ (((x >> 16) >> 5u32) & 1) ^ (((x >> 16) >> 6u32) & 1) ^ (((x
        >> 16) >> 7u32) & 1)) ^ ((((x >> 24) >> 0u32) & 1) ^ (((x >> 24) >> 1u32) & 1) ^ (((x >> 24)
        >> 2u32) & 1) ^ (((x >> 24) >> 3u32) & 1) ^ (((x >> 24) >> 4u32) & 1) ^ (((x >> 24) >> 5u32)
        & 1) ^ (((x >> 24) >> 6u32) & 1) ^ (((x >> 24) >> 7u32) & 1)))) by (bit_vector);
    assert(e & 1 <= 1) by (bit_vector);
    e & 1
}

/// How a transaction goes on after the acknowledgement.
#[derive(Copy, Clone, PartialEq, Eq, Structural, Debug)]
pub enum AckStep {
    /// The target said OK: the data phase follows.
    Proceed,
    /// The target said WAIT: the request is sent again, with this many
    /// retries left after it.
    Retry(usize),
    /// The transaction has failed.
    Fail(Error),
}

/// One word on the wire: `bits` bits of `value`, least significant first.
#[derive(Copy, Clone, PartialEq, Eq, Structural, Debug)]
pub struct Word {
    pub bits: u8,
    pub value: u16,
}

/// The SWD core.
#[derive(Copy, Clone, PartialEq, Eq, Structural, Debug)]
pub struct SWD {
    pub wait_retries: usize,
}

impl SWD {
    /// A core that repeats a request eight times on WAIT.
    pub fn new() -> (r: SWD)
        ensures
            r.wait_retries == 8,
    {
        SWD { wait_retries: 8 }
    }

    /// Sets how often a request is repeated on WAIT.
    pub fn set_wait_retries(&mut self, wait_retries: usize)
        ensures
            final(self).wait_retries == wait_retries,
    {
        self.wait_retries = wait_retries;
    }

    /// The request byte without its parity: start bit, APnDP, RnW, the two
    /// address bits, and the park bit; the stop bit is zero.
    pub open spec fn spec_request_bits(apndp: APnDP, rnw: RnW, a: u8) -> u8 {
        1u8 | (if apndp == APnDP::AP {
            2u8
        } else {
            0u8
        }) | (if rnw == RnW::R {
            4u8
        } else {
            0u8
        }) | ((a & 3) << 3) | 0x80u8
    }

    /// The request byte: bit 5 is the parity of APnDP, RnW and the address
    /// bits.
    pub open spec fn spec_make_request(apndp: APnDP, rnw: RnW, a: u8) -> u8 {
        let req = Self::spec_request_bits(apndp, rnw, a);
        req | ((((req >> 1) ^ (req >> 2) ^ (req >> 3) ^ (req >> 4)) & 1) << 5)
    }

    /// Frames a request for register address `a` (its low two bits count).
    pub fn make_request(apndp: APnDP, rnw: RnW, a: u8) -> (r: u8)
        ensures
            r == Self::spec_make_request(apndp, rnw, a),
            r & 0x81 == 0x81,
            r & 0x40 == 0,
            ((r >> 1) ^ (r >> 2) ^ (r >> 3) ^ (r >> 4) ^ (r >> 5)) & 1 == 0,
    {
        let ap: u8 = match apndp {
            APnDP::AP => 2,
            APnDP::DP => 0,
        };
        let rw: u8 = match rnw {
            RnW::R => 4,
            RnW::W => 0,
        };
        let req: u8 = 1u8 | ap | rw | ((a & 3) << 3) | 0x80u8;
        let p: u8 = ((req >> 1) ^ (req >> 2) ^ (req >> 3) ^ (req >> 4)) & 1;
        let r: u8 = req | (p << 5);
        assert(r & 0x81 == 0x81 && r & 0x40 == 0 && ((r >> 1) ^ (r >> 2) ^ (r >> 3) ^ (r >> 4) ^ (r
            >> 5)) & 1 == 0) by (bit_vector)
            requires
                r == req | (p << 5),
                p == ((req >> 1) ^ (req >> 2) ^ (req >> 3) ^ (req >> 4)) & 1,
                req == 1u8 | ap | rw | ((a & 3) << 3) | 0x80u8,
                ap == 0 || ap == 2,
                rw == 0 || rw == 4,
        ;
        r
    }

    /// The acknowledgement in the four bits received after a read request:
    /// one turnaround bit, then the three acknowledgement bits.
    pub fn read_ack(raw: u8) -> (ack: u8)
        ensures
            ack == raw >> 1,
    {
        raw >> 1
    }

    /// The acknowledgement in the five bits received after a write request:
    /// a turnaround bit, the three acknowledgement bits, a turnaround bit.
    pub fn write_ack(raw: u8) -> (ack: u8)
        ensures
            ack == (raw >> 1) & 0b111,
    {
        (raw >> 1) & 0b111
    }

    /// How a transaction goes on after acknowledgement `ack`, with
    /// `wait_retries` retries left: OK proceeds, WAIT is retried while
    /// retries are left, and everything else fails, a WAIT without retries
    /// as `AckWait`.
    pub open spec fn spec_after_ack(ack: u8, wait_retries: usize) -> AckStep {
        match ACK::spec_check_ok(ack) {
            Ok(_) => AckStep::Proceed,
            Err(Error::AckWait) => if wait_retries > 0 {
                AckStep::Retry((wait_retries - 1) as usize)
            } else {
                AckStep::Fail(Error::AckWait)
            },
            Err(e) => AckStep::Fail(e),
        }
    }

    pub fn after_ack(ack: u8, wait_retries: usize) -> (r: AckStep)
        ensures
            r == Self::spec_after_ack(ack, wait_retries),
    {
        match ACK::check_ok(ack) {
            Ok(_) => AckStep::Proceed,
            Err(Error::AckWait) => {
                if wait_retries > 0 {
                    AckStep::Retry(wait_retries - 1)
                } else {
                    AckStep::Fail(Error::AckWait)
                }
            },
            Err(e) => AckStep::Fail(e),
        }
    }

    /// The result of a read whose data phase gave `data` and a last byte
    /// with the parity in bit 0.
    pub open spec fn spec_finish_read(data: u32, last: u8) -> Result<u32, Error> {
        if (last & 1) as u32 == spec_parity(data) {
            Ok(data)
        } else {
            Err(Error::BadParity)
        }
    }

    /// Checks the parity of a read.
    pub fn finish_read(data: u32, last: u8) -> (r: Result<u32, Error>)
        ensures
            r == Self::spec_finish_read(data, last),
    {
        let p: u32 = (last & 1) as u32;
        if p == parity(data) {
            Ok(data)
        } else {
            Err(Error::BadParity)
        }
    }

    /// The result of a read for which the target gave the acknowledgements
    /// `acks`, one for each time the request was sent, and then, if it came
    /// to a data phase, `data` and `last`. `None` where `acks` ends before
    /// the transaction does.
    pub open spec fn spec_read(acks: Seq<u8>, wait_retries: usize, data: u32, last: u8) -> Option<
        Result<u32, Error>,
    >
        decreases acks.len(),
    {
        if acks.len() == 0 {
            None
        } else {
            match Self::spec_after_ack(acks[0], wait_retries) {
                AckStep::Proceed => Some(Self::spec_finish_read(data, last)),
                AckStep::Retry(left) => Self::spec_read(acks.skip(1), left, data, last),
                AckStep::Fail(e) => Some(Err(e)),
            }
        }
    }

    /// The result of a write for which the target gave the acknowledgements
    /// `acks`. `None` where `acks` ends before the transaction does.
    pub open spec fn spec_write(acks: Seq<u8>, wait_retries: usize) -> Option<Result<(), Error>>
        decreases acks.len(),
    {
        if acks.len() == 0 {
            None
        } else {
            match Self::spec_after_ack(acks[0], wait_retries) {
                AckStep::Proceed => Some(Ok(())),
                AckStep::Retry(left) => Self::spec_write(acks.skip(1), left),
                AckStep::Fail(e) => Some(Err(e)),
            }
        }
    }

    /// The words that start SWD on a target that may be in JTAG mode: a
    /// line reset of 64 ones, the switch word 0xE79E, another line reset, and
    /// four idle zeros.
    pub open spec fn spec_start_sequence() -> Seq<Word> {
        let ones = Seq::new(8, |i: int| Word { bits: 8, value: 0xFF });
        ones + seq![Word { bits: 16, value: 0xE79E }] + ones + seq![Word { bits: 4, value: 0 }]
    }

    pub fn start_sequence() -> (r: Vec<Word>)
        ensures
            r@ == Self::spec_start_sequence(),
            r@.len() == 18,
    {
        let mut r: Vec<Word> = Vec::new();
        Self::line_reset(&mut r);
        Self::jtag_to_swd(&mut r);
        Self::line_reset(&mut r);
        r.push(Self::idle_low());
        assert(r@ =~= Self::spec_start_sequence());
        r
    }

    /// Appends a line reset: 64 ones, more than the 50 that the protocol asks
    /// for.
    fn line_reset(seq: &mut Vec<Word>)
        ensures
            final(seq)@ == old(seq)@ + Seq::new(8, |i: int| Word { bits: 8, value: 0xFF }),
    {
        let mut i: usize = 0;
        while i < 8
            invariant
                i <= 8,
                seq@ == old(seq)@ + Seq::new(i as nat, |i: int| Word { bits: 8, value: 0xFF }),
            decreases 8 - i,
        {
            seq.push(Word { bits: 8, value: 0xFF });
            i += 1;
            assert(seq@ =~= old(seq)@ + Seq::new(i as nat, |i: int| Word { bits: 8, value: 0xFF }));
        }
    }

    /// Appends the word that switches a target from JTAG to SWD.
    fn jtag_to_swd(seq: &mut Vec<Word>)
        ensures
            final(seq)@ == old(seq)@ + seq![Word { bits: 16, value: 0xE79E }],
    {
        seq.push(Word { bits: 16, value: 0xE79E });
        assert(seq@ =~= old(seq)@ + seq![Word { bits: 16, value: 0xE79E }]);
    }

    /// Four idle clocks with the line high.
    pub fn idle_high() -> (r: Word)
        ensures
            r == (Word { bits: 4, value: 0xF }),
    {
        Word { bits: 4, value: 0xF }
    }

    /// Four idle clocks with the line low.
    pub fn idle_low() -> (r: Word)
        ensures
            r == (Word { bits: 4, value: 0 }),
    {
        Word { bits: 4, value: 0 }
    }
}

/// One transaction in progress: the request byte that goes out, the word of
/// a write, and the retries that are left.
#[derive(Copy, Clone, PartialEq, Eq, Structural, Debug)]
pub struct Transaction {
    pub request: u8,
    pub rnw: RnW,
    /// The word to write; zero for a read.
    pub data: u32,
    pub retries: usize,
}

impl SWD {
    /// The transaction for an access to register address `a`.
    pub open spec fn spec_transaction(&self, apndp: APnDP, rnw: RnW, a: u8, data: u32)
        -> Transaction {
        Transaction {
            request: Self::spec_make_request(apndp, rnw, a),
            rnw,
            data,
            retries: self.wait_retries,
        }
    }

    /// Starts a read of a register of the debug port.
    pub fn read_dp(&self, a: DPRegister) -> (t: Transaction)
        ensures
            t == self.spec_transaction(APnDP::DP, RnW::R, a.spec_addr(), 0),
    {
        self.read(APnDP::DP, a.addr())
    }

    /// Starts a write to a register of the debug port.
    pub fn write_dp(&self, a: DPRegister, data: u32) -> (t: Transaction)
        ensures
            t == self.spec_transaction(APnDP::DP, RnW::W, a.spec_addr(), data),
    {
        self.write(APnDP::DP, a.addr(), data)
    }

    /// Starts a read of a register of the access port.
    pub fn read_ap(&self, a: u8) -> (t: Transaction)
        ensures
            t == self.spec_transaction(APnDP::AP, RnW::R, a, 0),
    {
        self.read(APnDP::AP, a)
    }

    /// Starts a write to a register of the access port.
    pub fn write_ap(&self, a: u8, data: u32) -> (t: Transaction)
        ensures
            t == self.spec_transaction(APnDP::AP, RnW::W, a, data),
    {
        self.write(APnDP::AP, a, data)
    }

    /// Starts a read.
    pub fn read(&self, apndp: APnDP, a: u8) -> (t: Transaction)
        ensures
            t == self.spec_transaction(apndp, RnW::R, a, 0),
    {
        Transaction {
            request: Self::make_request(apndp, RnW::R, a),
            rnw: RnW::R,
            data: 0,
            retries: self.wait_retries,
        }
    }

    /// Starts a write.
    pub fn write(&self, apndp: APnDP, a: u8, data: u32) -> (t: Transaction)
        ensures
            t == self.spec_transaction(apndp, RnW::W, a, data),
    {
        Transaction {
            request: Self::make_request(apndp, RnW::W, a),
            rnw: RnW::W,
            data,
            retries: self.wait_retries,
        }
    }

    /// Sets the clock of the SPI block that carries the wire.
    pub fn set_clock(spi: &mut SPI, clock: SPIClock)
        ensures
            *final(spi) == (SPI { clock: clock, ..*old(spi) }),
    {
        spi.set_clock(clock);
    }

    /// Turns the SPI block on, with its SWD profile.
    pub fn spi_enable(spi: &mut SPI)
        ensures
            *final(spi) == SPI::spec_profile_swd(),
    {
        spi.setup_swd();
    }

    /// Turns the SPI block off.
    pub fn spi_disable(spi: &mut SPI)
        ensures
            *final(spi) == (SPI { enabled: false, ..*old(spi) }),
    {
        spi.disable();
    }

    /// The words that send the bytes `seq` on the wire, eight bits each.
    pub fn tx_sequence(seq: &[u8]) -> (r: Vec<Word>)
        ensures
            r@ == Seq::new(seq@.len(), |i: int| Word { bits: 8, value: seq@[i] as u16 }),
    {
        let mut r: Vec<Word> = Vec::new();
        let mut i: usize = 0;
        while i < seq.len()
            invariant
                i <= seq.len(),
                r@ == Seq::new(i as nat, |k: int| Word { bits: 8, value: seq@[k] as u16 }),
            decreases seq.len() - i,
        {
            r.push(Word { bits: 8, value: seq[i] as u16 });
            i += 1;
            assert(r@ =~= Seq::new(i as nat, |k: int| Word { bits: 8, value: seq@[k] as u16 }));
        }
        r
    }
}

impl Transaction {
    /// The acknowledgement in the bits received after the request: a read
    /// receives four bits and a write five, the acknowledgement in bits 1 to
    /// 3 of either.
    pub open spec fn spec_ack(&self, raw: u8) -> u8 {
        if self.rnw == RnW::R {
            raw >> 1
        } else {
            (raw >> 1) & 0b111
        }
    }

    /// The number of bits to receive after the request.
    pub fn ack_bits(&self) -> (n: u8)
        ensures
            n == (if self.rnw == RnW::R { 4u8 } else { 5u8 }),
    {
        match self.rnw {
            RnW::R => 4,
            RnW::W => 5,
        }
    }

    /// Decides how the transaction goes on after the bits `raw` were
    /// received: on WAIT with retries left, one retry is used up and the
    /// request goes out again.
    pub fn on_ack(&mut self, raw: u8) -> (r: AckStep)
        ensures
            r == SWD::spec_after_ack(old(self).spec_ack(raw), old(self).retries),
            *final(self) == (Transaction {
                retries: match r {
                    AckStep::Retry(left) => left,
                    _ => old(self).retries,
                },
                ..*old(self)
            }),
    {
        let ack: u8 = match self.rnw {
            RnW::R => SWD::read_ack(raw),
            RnW::W => SWD::write_ack(raw),
        };
        let step = SWD::after_ack(ack, self.retries);
        match step {
            AckStep::Retry(left) => {
                self.retries = left;
            },
            _ => {},
        }
        step
    }

    /// The five bytes of the data phase of a write: the word, and its
    /// parity in bit 0 of the last byte.
    pub fn wdata(&self) -> (r: Vec<u8>)
        ensures
            r@ == SPI::spec_swd_wdata(self.data, spec_parity(self.data) as u8),
            r@.len() == 5,
    {
        let p: u32 = parity(self.data);
        SPI::swd_wdata_phase(self.data, p as u8)
    }

    /// The result of a read from the five bytes of its data phase.
    pub fn rdata(rx: &[u8]) -> (r: Result<u32, Error>)
        requires
            rx@.len() == 5,
        ensures
            r == SWD::spec_finish_read(
                crate::bytes::word32(rx@[0], rx@[1], rx@[2], rx@[3]),
                rx@[4],
            ),
    {
        let (data, last) = SPI::swd_rdata_phase(rx);
        SWD::finish_read(data, last)
    }
}

/// A WAIT is retried at most `wait_retries` times: when the target answers
/// WAIT to the request and to every retry, the read fails with `AckWait`
/// after `wait_retries + 1` requests.
pub proof fn lemma_wait_exhausted(acks: Seq<u8>, wait_retries: usize, data: u32, last: u8)
    requires
        acks.len() == wait_retries + 1,
        forall|i: int| 0 <= i < acks.len() ==> acks[i] == 0b010,
    ensures
        SWD::spec_read(acks, wait_retries, data, last) == Some(
            Err::<u32, Error>(Error::AckWait),
        ),
        SWD::spec_write(acks, wait_retries) == Some(Err::<(), Error>(Error::AckWait)),
    decreases acks.len(),
{
    if wait_retries > 0 {
        lemma_wait_exhausted(acks.skip(1), (wait_retries - 1) as usize, data, last);
    }
}

} // verus!
