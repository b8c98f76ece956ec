//! The SPI engine: its two profiles, its clock codes, and the framing of the
//! SWD data phases in 8-bit words.

use vstd::prelude::*;
use crate::bytes::{le32, word32};

verus! {

/// The eight clock rates of the SPI block, each half the one before.
#[derive(Copy, Clone, PartialEq, Eq, Structural, Debug)]
pub enum SPIClock {
    Clk24M,
    Clk12M,
    Clk6M,
    Clk3M,
    Clk1M5,
    Clk750k,
    Clk375k,
    Clk187k5,
}

impl SPIClock {
    /// The divider code: the clock is 48 MHz divided by two to the power
    /// `code + 1`.
    pub open spec fn spec_code(self) -> u32 {
        match self {
            SPIClock::Clk24M => 0u32,
            SPIClock::Clk12M => 1u32,
            SPIClock::Clk6M => 2u32,
            SPIClock::Clk3M => 3u32,
            SPIClock::Clk1M5 => 4u32,
            SPIClock::Clk750k => 5u32,
            SPIClock::Clk375k => 6u32,
            SPIClock::Clk187k5 => 7u32,
        }
    }

    pub fn code(self) -> (r: u32)
        ensures
            r == self.spec_code(),
    {
        match self {
            SPIClock::Clk24M => 0,
            SPIClock::Clk12M => 1,
            SPIClock::Clk6M => 2,
            SPIClock::Clk3M => 3,
            SPIClock::Clk1M5 => 4,
            SPIClock::Clk750k => 5,
            SPIClock::Clk375k => 6,
            SPIClock::Clk187k5 => 7,
        }
    }

    /// The rate in Hz.
    pub open spec fn spec_hz(self) -> u32 {
        match self {
            SPIClock::Clk24M => 24_000_000u32,
            SPIClock::Clk12M => 12_000_000u32,
            SPIClock::Clk6M => 6_000_000u32,
            SPIClock::Clk3M => 3_000_000u32,
            SPIClock::Clk1M5 => 1_500_000u32,
            SPIClock::Clk750k => 750_000u32,
            SPIClock::Clk375k => 375_000u32,
            SPIClock::Clk187k5 => 187_500u32,
        }
    }

    pub fn hz(self) -> (r: u32)
        ensures
            r == self.spec_hz(),
    {
        match self {
            SPIClock::Clk24M => 24_000_000,
            SPIClock::Clk12M => 12_000_000,
            SPIClock::Clk6M => 6_000_000,
            SPIClock::Clk3M => 3_000_000,
            SPIClock::Clk1M5 => 1_500_000,
            SPIClock::Clk750k => 750_000,
            SPIClock::Clk375k => 375_000,
            SPIClock::Clk187k5 => 187_500,
        }
    }

    /// The fastest clock that is not faster than `max` Hz; there is none below
    /// 187.5 kHz.
    pub open spec fn spec_from_max(max: u32) -> Option<SPIClock> {
        if max >= 24_000_000 {
            Some(SPIClock::Clk24M)
        } else if max >= 12_000_000 {
            Some(SPIClock::Clk12M)
        } else if max >= 6_000_000 {
            Some(SPIClock::Clk6M)
        } else if max >= 3_000_000 {
            Some(SPIClock::Clk3M)
        } else if max >= 1_500_000 {
            Some(SPIClock::Clk1M5)
        } else if max >= 750_000 {
            Some(SPIClock::Clk750k)
        } else if max >= 375_000 {
            Some(SPIClock::Clk375k)
        } else if max >= 187_500 {
            Some(SPIClock::Clk187k5)
        } else {
            None
        }
    }

    pub fn from_max(max: u32) -> (r: Option<SPIClock>)
        ensures
            r == Self::spec_from_max(max),
            r.is_none() <==> max < 187_500,
            match r {
                Some(c) => c.spec_hz() <= max && forall|d: SPIClock|
                    #![trigger d.spec_hz()]
                    d.spec_hz() <= max ==> d.spec_hz() <= c.spec_hz(),
                None => true,
            },
    {
        if max >= 24_000_000 {
            Some(SPIClock::Clk24M)
        } else if max >= 12_000_000 {
            Some(SPIClock::Clk12M)
        } else if max >= 6_000_000 {
            Some(SPIClock::Clk6M)
        } else if max >= 3_000_000 {
            Some(SPIClock::Clk3M)
        } else if max >= 1_500_000 {
            Some(SPIClock::Clk1M5)
        } else if max >= 750_000 {
            Some(SPIClock::Clk750k)
        } else if max >= 375_000 {
            Some(SPIClock::Clk375k)
        } else if max >= 187_500 {
            Some(SPIClock::Clk187k5)
        } else {
            None
        }
    }
}

/// Configuration of the SPI block.
#[derive(Copy, Clone, PartialEq, Eq, Structural, Debug)]
pub struct SPI {
    /// Bits per word: 4, 5, 8 or 16.
    pub word_size: u8,
    pub lsb_first: bool,
    pub clock: SPIClock,
    pub enabled: bool,
    /// Transmit and receive requests go to the DMA controller.
    pub dma: bool,
}

impl SPI {
    /// The block as it is after reset: off.
    pub fn new() -> (r: SPI)
        ensures
            r == (SPI {
                word_size: 8,
                lsb_first: false,
                clock: SPIClock::Clk24M,
                enabled: false,
                dma: false,
            }),
    {
        SPI { word_size: 8, lsb_first: false, clock: SPIClock::Clk24M, enabled: false, dma: false }
    }

    /// The profile for flash and FPGA: 8-bit words, most significant bit
    /// first, clock divided by four, DMA on; the block stays off until an
    /// exchange starts.
    pub open spec fn spec_profile_spi() -> SPI {
        SPI { word_size: 8, lsb_first: false, clock: SPIClock::Clk12M, enabled: false, dma: true }
    }

    /// The profile for SWD: 8-bit words, least significant bit first, clock
    /// divided by 128, no DMA, the block on.
    pub open spec fn spec_profile_swd() -> SPI {
        SPI { word_size: 8, lsb_first: true, clock: SPIClock::Clk375k, enabled: true, dma: false }
    }

    pub fn setup_spi(&mut self)
        ensures
            *final(self) == Self::spec_profile_spi(),
    {
        self.word_size = 8;
        self.lsb_first = false;
        self.clock = SPIClock::Clk12M;
        self.enabled = false;
        self.dma = true;
    }

    pub fn setup_swd(&mut self)
        ensures
            *final(self) == Self::spec_profile_swd(),
    {
        self.word_size = 8;
        self.lsb_first = true;
        self.clock = SPIClock::Clk375k;
        self.enabled = true;
        self.dma = false;
    }

    /// Changes the clock rate and nothing else.
    pub fn set_clock(&mut self, clock: SPIClock)
        ensures
            *final(self) == (SPI { clock: clock, ..*old(self) }),
    {
        self.clock = clock;
    }

    /// Turns the block off.
    pub fn disable(&mut self)
        ensures
            *final(self) == (SPI { enabled: false, ..*old(self) }),
    {
        self.enabled = false;
    }

    /// The five bytes of the data phase of an SWD write: the 32 data bits,
    /// then one byte with the parity in bit 0 and seven idle bits.
    pub open spec fn spec_swd_wdata(data: u32, parity: u8) -> Seq<u8> {
        le32(data) + seq![parity & 1]
    }

    /// Frames the data phase of an SWD write.
    pub fn swd_wdata_phase(data: u32, parity: u8) -> (r: Vec<u8>)
        ensures
            r@ == Self::spec_swd_wdata(data, parity),
            r@.len() == 5,
    {
        let mut r: Vec<u8> = Vec::new();
        crate::bytes::push_u32(&mut r, data);
        r.push(parity & 1);
        assert(r@ =~= Self::spec_swd_wdata(data, parity));
        r
    }

    /// Reads the data phase of an SWD read out of the five bytes received:
    /// the 32 data bits, and the last byte, whose bit 0 is the parity.
    pub fn swd_rdata_phase(rx: &[u8]) -> (r: (u32, u8))
        requires
            rx@.len() == 5,
        ensures
            r.0 == word32(rx@[0], rx@[1], rx@[2], rx@[3]),
            r.1 == rx@[4],
    {
        let data: u32 = (rx[0] as u32) | ((rx[1] as u32) << 8) | ((rx[2] as u32) << 16) | ((
        rx[3] as u32) << 24);
        (data, rx[4])
    }
}

} // verus!
