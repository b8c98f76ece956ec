//! The pin and mode controller.
//!
//! A pin is a record of its configuration: direction, output type, pull,
//! speed, alternate function and output level. The aggregate `Pins` names the
//! ten pins of the adapter and moves them between the five pin configurations
//! of the device. The code that owns the port registers writes each record to
//! the hardware; everything that decides what is written stands here.

use vstd::prelude::*;
use crate::app::PinState;

verus! {

/// GPIO port that a pin belongs to.
#[derive(Copy, Clone, PartialEq, Eq, Structural, Debug)]
pub enum Port {
    A,
    B,
}

/// Direction of a pin.
#[derive(Copy, Clone, PartialEq, Eq, Structural, Debug)]
pub enum PinMode {
    Input,
    Output,
    Alternate,
    Analog,
}

/// Output driver of a pin.
#[derive(Copy, Clone, PartialEq, Eq, Structural, Debug)]
pub enum OutputType {
    PushPull,
    OpenDrain,
}

/// Pull resistor of a pin.
#[derive(Copy, Clone, PartialEq, Eq, Structural, Debug)]
pub enum Pull {
    Floating,
    Up,
    Down,
}

/// Slew rate of a pin.
#[derive(Copy, Clone, PartialEq, Eq, Structural, Debug)]
pub enum Speed {
    Low,
    Medium,
    High,
    VeryHigh,
}

impl PinMode {
    /// The two-bit code of a direction in a port's mode register.
    pub open spec fn spec_bits(self) -> u32 {
        match self {
            PinMode::Input => 0u32,
            PinMode::Output => 1u32,
            PinMode::Alternate => 2u32,
            PinMode::Analog => 3u32,
        }
    }

    pub fn bits(self) -> (r: u32)
        ensures
            r == self.spec_bits(),
            r < 4,
    {
        match self {
            PinMode::Input => 0,
            PinMode::Output => 1,
            PinMode::Alternate => 2,
            PinMode::Analog => 3,
        }
    }

    /// The direction that a two-bit code stands for; only the low two bits count.
    pub open spec fn spec_from_bits(bits: u32) -> PinMode {
        let b = bits & 3;
        if b == 0 {
            PinMode::Input
        } else if b == 1 {
            PinMode::Output
        } else if b == 2 {
            PinMode::Alternate
        } else {
            PinMode::Analog
        }
    }

    pub fn from_bits(bits: u32) -> (r: PinMode)
        ensures
            r == Self::spec_from_bits(bits),
    {
        let b: u32 = bits & 3;
        if b == 0 {
            PinMode::Input
        } else if b == 1 {
            PinMode::Output
        } else if b == 2 {
            PinMode::Alternate
        } else {
            PinMode::Analog
        }
    }
}

/// A precomputed mask and value for one pin's field of a port's mode register:
/// `(r & mask) | value` sets that pin's direction and leaves the others.
#[derive(Copy, Clone, PartialEq, Eq, Structural, Debug)]
pub struct MemoisedMode {
    pub mask: u32,
    pub value: u32,
}

/// Bit position of pin `n`'s field in a mode register.
pub open spec fn mode_offset(n: u8) -> u32 {
    (((n & 0xF) as u32) * 2) as u32
}

/// The two-bit mode field of pin `n` in a mode register value.
pub open spec fn mode_field(reg: u32, n: u8) -> u32 {
    (reg >> mode_offset(n)) & 3
}

/// Writing direction code `mode` into pin `n`'s field of `reg`.
pub open spec fn with_mode_field(reg: u32, n: u8, mode: u32) -> u32 {
    let offset = mode_offset(n);
    (reg & !(3u32 << offset)) | ((mode << offset) & (3u32 << offset))
}

/// Writing a field and reading it back gives the code written; every other
/// pin's field is as it was.
pub proof fn lemma_mode_field_written(reg: u32, n: u8, m: u8, mode: u32)
    requires
        n < 16,
        m < 16,
        mode < 4,
    ensures
        mode_field(with_mode_field(reg, n, mode), n) == mode,
        m != n ==> mode_field(with_mode_field(reg, n, mode), m) == mode_field(reg, m),
{
    let a: u32 = mode_offset(n);
    let b: u32 = mode_offset(m);
    assert((n & 0xF) == n && (m & 0xF) == m) by (bit_vector)
        requires
            n < 16,
            m < 16,
    ;
    assert(a < 32 && b < 32 && a % 2 == 0 && b % 2 == 0);
    assert((((reg & !(3u32 << a)) | ((mode << a) & (3u32 << a))) >> a) & 3 == mode) by (bit_vector)
        requires
            a <= 30,
            mode < 4,
    ;
    if m != n {
        assert(a != b);
        assert((((reg & !(3u32 << a)) | ((mode << a) & (3u32 << a))) >> b) & 3 == (reg >> b) & 3)
            by (bit_vector)
            requires
                a < 32,
                b < 32,
                a % 2 == 0,
                b % 2 == 0,
                a != b,
        ;
    }
}

impl MemoisedMode {
    /// The pair that writes direction code `mode` into pin `n`'s field.
    pub open spec fn spec_memoise(n: u8, mode: u32) -> MemoisedMode {
        let offset = mode_offset(n);
        MemoisedMode { mask: !(3u32 << offset), value: (mode << offset) & (3u32 << offset) }
    }

    /// The mode register value after this pair is applied to `reg`.
    pub open spec fn spec_apply(self, reg: u32) -> u32 {
        (reg & self.mask) | self.value
    }

    /// Applies the pair to a mode register value in one read-modify-write.
    pub fn apply(self, reg: u32) -> (r: u32)
        ensures
            r == self.spec_apply(reg),
    {
        (reg & self.mask) | self.value
    }

    /// The direction that this pair gives to pin `n`.
    pub open spec fn spec_mode_for(self, n: u8) -> PinMode {
        PinMode::spec_from_bits(mode_field(self.value, n))
    }

    /// Reads back the direction that this pair gives to pin `n`.
    pub fn mode_for(self, n: u8) -> (r: PinMode)
        ensures
            r == self.spec_mode_for(n),
    {
        let offset: u32 = (n & 0xF) as u32 * 2;
        assert(offset < 32) by {
            assert((n & 0xF) < 16) by (bit_vector);
        }
        PinMode::from_bits((self.value >> offset) & 3)
    }
}

/// A memoised pair does to a register exactly what writing the field does, and
/// the pair itself reads back as the direction it was made for.
pub proof fn lemma_memoised_mode(reg: u32, n: u8, mode: PinMode)
    requires
        n < 16,
    ensures
        MemoisedMode::spec_memoise(n, mode.spec_bits()).spec_apply(reg) == with_mode_field(
            reg,
            n,
            mode.spec_bits(),
        ),
        mode_field(MemoisedMode::spec_memoise(n, mode.spec_bits()).spec_apply(reg), n)
            == mode.spec_bits(),
        MemoisedMode::spec_memoise(n, mode.spec_bits()).spec_mode_for(n) == mode,
{
    let bits = mode.spec_bits();
    lemma_mode_field_written(reg, n, n, bits);
    let a: u32 = mode_offset(n);
    assert((n & 0xF) == n) by (bit_vector)
        requires
            n < 16,
    ;
    assert((((bits << a) & (3u32 << a)) >> a) & 3 == bits) by (bit_vector)
        requires
            a <= 30,
            bits < 4,
    ;
    assert(bits & 3 == bits) by (bit_vector)
        requires
            bits < 4,
    ;
}

/// One pin of a port, with its whole configuration.
#[derive(Copy, Clone, PartialEq, Eq, Structural, Debug)]
pub struct Pin {
    pub port: Port,
    pub n: u8,
    pub mode: PinMode,
    pub otype: OutputType,
    pub ospeed: Speed,
    pub pull: Pull,
    pub af: u8,
    /// Level of the output latch. It is kept while the pin is an input.
    pub level: PinState,
}

impl Pin {
    /// Pin `n` of `port` as it is after reset: a floating push-pull input with
    /// its output latch low.
    pub open spec fn spec_new(port: Port, n: u8) -> Pin {
        Pin {
            port,
            n,
            mode: PinMode::Input,
            otype: OutputType::PushPull,
            ospeed: Speed::Low,
            pull: Pull::Floating,
            af: 0,
            level: PinState::Low,
        }
    }

    pub fn new(port: Port, n: u8) -> (r: Pin)
        requires
            n < 16,
        ensures
            r == Self::spec_new(port, n),
    {
        Pin {
            port,
            n,
            mode: PinMode::Input,
            otype: OutputType::PushPull,
            ospeed: Speed::Low,
            pull: Pull::Floating,
            af: 0,
            level: PinState::Low,
        }
    }

    /// Whether the pin drives its line high or low: an output whose driver can
    /// reach that level. An open-drain output only ever drives low.
    pub open spec fn drives(self) -> bool {
        self.mode == PinMode::Output && (self.otype == OutputType::PushPull || self.level
            == PinState::Low)
    }

    pub fn set_high(&mut self)
        ensures
            *final(self) == (Pin { level: PinState::High, ..*old(self) }),
    {
        self.level = PinState::High;
    }

    pub fn set_low(&mut self)
        ensures
            *final(self) == (Pin { level: PinState::Low, ..*old(self) }),
    {
        self.level = PinState::Low;
    }

    pub fn set_state(&mut self, state: PinState)
        ensures
            *final(self) == (Pin { level: state, ..*old(self) }),
    {
        self.level = state;
    }

    pub fn set_bool(&mut self, state: bool)
        ensures
            *final(self) == (Pin {
                level: if state { PinState::High } else { PinState::Low },
                ..*old(self)
            }),
    {
        if state {
            self.set_high();
        } else {
            self.set_low();
        }
    }

    pub fn set_mode_input(&mut self)
        ensures
            *final(self) == (Pin { mode: PinMode::Input, ..*old(self) }),
    {
        self.mode = PinMode::Input;
    }

    pub fn set_mode_output(&mut self)
        ensures
            *final(self) == (Pin { mode: PinMode::Output, ..*old(self) }),
    {
        self.mode = PinMode::Output;
    }

    pub fn set_mode_alternate(&mut self)
        ensures
            *final(self) == (Pin { mode: PinMode::Alternate, ..*old(self) }),
    {
        self.mode = PinMode::Alternate;
    }

    pub fn set_mode_analog(&mut self)
        ensures
            *final(self) == (Pin { mode: PinMode::Analog, ..*old(self) }),
    {
        self.mode = PinMode::Analog;
    }

    pub fn memoise_mode_input(&self) -> (r: MemoisedMode)
        ensures
            r == MemoisedMode::spec_memoise(self.n, PinMode::Input.spec_bits()),
    {
        GPIO::memoise_mode(self.n, PinMode::Input)
    }

    pub fn memoise_mode_output(&self) -> (r: MemoisedMode)
        ensures
            r == MemoisedMode::spec_memoise(self.n, PinMode::Output.spec_bits()),
    {
        GPIO::memoise_mode(self.n, PinMode::Output)
    }

    pub fn memoise_mode_alternate(&self) -> (r: MemoisedMode)
        ensures
            r == MemoisedMode::spec_memoise(self.n, PinMode::Alternate.spec_bits()),
    {
        GPIO::memoise_mode(self.n, PinMode::Alternate)
    }

    pub fn memoise_mode_analog(&self) -> (r: MemoisedMode)
        ensures
            r == MemoisedMode::spec_memoise(self.n, PinMode::Analog.spec_bits()),
    {
        GPIO::memoise_mode(self.n, PinMode::Analog)
    }

    /// Gives the pin the direction that a memoised pair holds for it.
    pub fn apply_memoised_mode(&mut self, mode: MemoisedMode)
        ensures
            *final(self) == (Pin { mode: mode.spec_mode_for(old(self).n), ..*old(self) }),
    {
        self.mode = mode.mode_for(self.n);
    }

    pub fn set_otype_opendrain(&mut self)
        ensures
            *final(self) == (Pin { otype: OutputType::OpenDrain, ..*old(self) }),
    {
        self.otype = OutputType::OpenDrain;
    }

    pub fn set_otype_pushpull(&mut self)
        ensures
            *final(self) == (Pin { otype: OutputType::PushPull, ..*old(self) }),
    {
        self.otype = OutputType::PushPull;
    }

    pub fn set_ospeed_low(&mut self)
        ensures
            *final(self) == (Pin { ospeed: Speed::Low, ..*old(self) }),
    {
        self.ospeed = Speed::Low;
    }

    pub fn set_ospeed_medium(&mut self)
        ensures
            *final(self) == (Pin { ospeed: Speed::Medium, ..*old(self) }),
    {
        self.ospeed = Speed::Medium;
    }

    pub fn set_ospeed_high(&mut self)
        ensures
            *final(self) == (Pin { ospeed: Speed::High, ..*old(self) }),
    {
        self.ospeed = Speed::High;
    }

    pub fn set_ospeed_veryhigh(&mut self)
        ensures
            *final(self) == (Pin { ospeed: Speed::VeryHigh, ..*old(self) }),
    {
        self.ospeed = Speed::VeryHigh;
    }

    /// Selects alternate function `af`; only the low four bits are kept.
    pub fn set_af(&mut self, af: u8)
        ensures
            *final(self) == (Pin { af: af & 0xF, ..*old(self) }),
    {
        self.af = af & 0xF;
    }

    pub fn set_pull_floating(&mut self)
        ensures
            *final(self) == (Pin { pull: Pull::Floating, ..*old(self) }),
    {
        self.pull = Pull::Floating;
    }

    pub fn set_pull_up(&mut self)
        ensures
            *final(self) == (Pin { pull: Pull::Up, ..*old(self) }),
    {
        self.pull = Pull::Up;
    }

    pub fn set_pull_down(&mut self)
        ensures
            *final(self) == (Pin { pull: Pull::Down, ..*old(self) }),
    {
        self.pull = Pull::Down;
    }
}

/// Register arithmetic of a GPIO port.
pub struct GPIO {}

impl GPIO {
    /// The mode register value `reg` with pin `n` set to `mode`.
    pub fn set_mode(reg: u32, n: u8, mode: PinMode) -> (r: u32)
        requires
            n < 16,
        ensures
            r == with_mode_field(reg, n, mode.spec_bits()),
            mode_field(r, n) == mode.spec_bits(),
            forall|m: u8| m < 16 && m != n ==> mode_field(r, m) == mode_field(reg, m),
    {
        let offset: u32 = (n & 0xF) as u32 * 2;
        assert(offset < 32) by {
            assert((n & 0xF) < 16) by (bit_vector);
        }
        let mask: u32 = 3u32 << offset;
        let val: u32 = (mode.bits() << offset) & mask;
        proof {
            assert forall|m: u8| m < 16 && m != n implies mode_field(
                with_mode_field(reg, n, mode.spec_bits()),
                m,
            ) == mode_field(reg, m) by {
                lemma_mode_field_written(reg, n, m, mode.spec_bits());
            }
            lemma_mode_field_written(reg, n, n, mode.spec_bits());
        }
        (reg & !mask) | val
    }

    /// Precomputes the mask and value that set pin `n` to `mode`.
    pub fn memoise_mode(n: u8, mode: PinMode) -> (r: MemoisedMode)
        ensures
            r == MemoisedMode::spec_memoise(n, mode.spec_bits()),
    {
        let offset: u32 = (n & 0xF) as u32 * 2;
        assert(offset < 32) by {
            assert((n & 0xF) < 16) by (bit_vector);
        }
        let mask: u32 = 3u32 << offset;
        let value: u32 = (mode.bits() << offset) & mask;
        MemoisedMode { mask: !mask, value }
    }
}

impl OutputType {
    /// The bit of a driver in a port's output type register.
    pub open spec fn spec_bits(self) -> u32 {
        match self {
            OutputType::PushPull => 0u32,
            OutputType::OpenDrain => 1u32,
        }
    }

    pub fn bits(self) -> (r: u32)
        ensures
            r == self.spec_bits(),
    {
        match self {
            OutputType::PushPull => 0,
            OutputType::OpenDrain => 1,
        }
    }
}

impl Speed {
    /// The two-bit code of a slew rate in a port's speed register.
    pub open spec fn spec_bits(self) -> u32 {
        match self {
            Speed::Low => 0u32,
            Speed::Medium => 1u32,
            Speed::High => 2u32,
            Speed::VeryHigh => 3u32,
        }
    }

    pub fn bits(self) -> (r: u32)
        ensures
            r == self.spec_bits(),
    {
        match self {
            Speed::Low => 0,
            Speed::Medium => 1,
            Speed::High => 2,
            Speed::VeryHigh => 3,
        }
    }
}

impl Pull {
    /// The two-bit code of a pull in a port's pull register.
    pub open spec fn spec_bits(self) -> u32 {
        match self {
            Pull::Floating => 0u32,
            Pull::Up => 1u32,
            Pull::Down => 2u32,
        }
    }

    pub fn bits(self) -> (r: u32)
        ensures
            r == self.spec_bits(),
    {
        match self {
            Pull::Floating => 0,
            Pull::Up => 1,
            Pull::Down => 2,
        }
    }
}

/// The field of a register that lies at bit `offset` and is as wide as
/// `mask`.
pub open spec fn field(reg: u32, offset: u32, mask: u32) -> u32 {
    (reg >> offset) & mask
}

/// Writing `value` into the field at bit `offset` that is as wide as `mask`.
pub open spec fn with_field(reg: u32, offset: u32, mask: u32, value: u32) -> u32 {
    (reg & !(mask << offset)) | ((value << offset) & (mask << offset))
}

/// Writing a field of one, two or four bits and reading it back gives the
/// value written.
pub proof fn lemma_field_written(reg: u32, offset: u32, mask: u32, value: u32)
    requires
        (mask == 1 && offset <= 31) || (mask == 3 && offset <= 30) || (mask == 15 && offset <= 28),
        value <= mask,
    ensures
        field(with_field(reg, offset, mask, value), offset, mask) == value,
{
    assert((((reg & !(mask << offset)) | ((value << offset) & (mask << offset))) >> offset) & mask
        == value) by (bit_vector)
        requires
            (mask == 1 && offset <= 31) || (mask == 3 && offset <= 30) || (mask == 15 && offset
                <= 28),
            value <= mask,
    ;
}

impl GPIO {
    /// The output type register value `reg` with pin `n` set to `otype`.
    pub fn set_otype(reg: u32, n: u8, otype: OutputType) -> (r: u32)
        requires
            n < 16,
        ensures
            r == with_field(reg, n as u32, 1, otype.spec_bits()),
            field(r, n as u32, 1) == otype.spec_bits(),
    {
        let offset: u32 = n as u32;
        proof {
            lemma_field_written(reg, offset, 1, otype.spec_bits());
        }
        (reg & !(1u32 << offset)) | ((otype.bits() << offset) & (1u32 << offset))
    }

    /// The speed register value `reg` with pin `n` set to `speed`.
    pub fn set_ospeed(reg: u32, n: u8, speed: Speed) -> (r: u32)
        requires
            n < 16,
        ensures
            r == with_field(reg, (2 * n) as u32, 3, speed.spec_bits()),
            field(r, (2 * n) as u32, 3) == speed.spec_bits(),
    {
        let offset: u32 = 2 * (n as u32);
        proof {
            lemma_field_written(reg, offset, 3, speed.spec_bits());
        }
        (reg & !(3u32 << offset)) | ((speed.bits() << offset) & (3u32 << offset))
    }

    /// The pull register value `reg` with pin `n` set to `pull`.
    pub fn set_pull(reg: u32, n: u8, pull: Pull) -> (r: u32)
        requires
            n < 16,
        ensures
            r == with_field(reg, (2 * n) as u32, 3, pull.spec_bits()),
            field(r, (2 * n) as u32, 3) == pull.spec_bits(),
    {
        let offset: u32 = 2 * (n as u32);
        proof {
            lemma_field_written(reg, offset, 3, pull.spec_bits());
        }
        (reg & !(3u32 << offset)) | ((pull.bits() << offset) & (3u32 << offset))
    }

    /// The alternate function register value `reg` with function `af` for
    /// the pin whose field is number `slot` of the register: pins 0 to 7 have
    /// slots 0 to 7 of the low register, pins 8 to 15 those of the high one.
    pub fn set_af(reg: u32, slot: u8, af: u8) -> (r: u32)
        requires
            slot < 8,
            af < 16,
        ensures
            r == with_field(reg, (4 * slot) as u32, 15, af as u32),
            field(r, (4 * slot) as u32, 15) == af,
    {
        let offset: u32 = 4 * (slot as u32);
        proof {
            lemma_field_written(reg, offset, 15, af as u32);
        }
        (reg & !(15u32 << offset)) | (((af as u32) << offset) & (15u32 << offset))
    }
}

/// The five configurations of the shared pins.
#[derive(Copy, Clone, PartialEq, Eq, Structural, Debug)]
pub enum PinConfig {
    HighImpedance,
    Flash,
    FPGA,
    SWD,
    JTAG,
}

/// The adapter's pins, with the memoised mode pairs of the SWD hot path.
#[derive(Copy, Clone, PartialEq, Eq, Structural, Debug)]
pub struct Pins {
    pub led: Pin,
    pub cs: Pin,
    pub fpga_rst: Pin,
    pub sck: Pin,
    pub flash_so: Pin,
    pub flash_si: Pin,
    pub fpga_so: Pin,
    pub fpga_si: Pin,
    pub tpwr_det: Pin,
    pub tpwr_en: Pin,
    pub flash_si_input_mode: MemoisedMode,
    pub flash_si_alternate_mode: MemoisedMode,
    pub sck_output_mode: MemoisedMode,
    pub sck_alternate_mode: MemoisedMode,
}

impl Pins {
    /// The memoised pairs are those of the pins they are kept for.
    pub open spec fn wf(self) -> bool {
        &&& self.flash_si.n < 16
        &&& self.sck.n < 16
        &&& self.flash_si_input_mode == MemoisedMode::spec_memoise(
            self.flash_si.n,
            PinMode::Input.spec_bits(),
        )
        &&& self.flash_si_alternate_mode == MemoisedMode::spec_memoise(
            self.flash_si.n,
            PinMode::Alternate.spec_bits(),
        )
        &&& self.sck_output_mode == MemoisedMode::spec_memoise(
            self.sck.n,
            PinMode::Output.spec_bits(),
        )
        &&& self.sck_alternate_mode == MemoisedMode::spec_memoise(
            self.sck.n,
            PinMode::Alternate.spec_bits(),
        )
    }

    /// The board's pin assignment, every pin as it is after reset.
    pub open spec fn spec_new() -> Pins {
        Pins {
            led: Pin::spec_new(Port::A, 2),
            cs: Pin::spec_new(Port::A, 3),
            fpga_rst: Pin::spec_new(Port::A, 4),
            sck: Pin::spec_new(Port::A, 5),
            flash_so: Pin::spec_new(Port::A, 6),
            flash_si: Pin::spec_new(Port::A, 7),
            fpga_so: Pin::spec_new(Port::B, 4),
            fpga_si: Pin::spec_new(Port::B, 5),
            tpwr_det: Pin::spec_new(Port::B, 6),
            tpwr_en: Pin::spec_new(Port::B, 7),
            flash_si_input_mode: MemoisedMode::spec_memoise(7, PinMode::Input.spec_bits()),
            flash_si_alternate_mode: MemoisedMode::spec_memoise(7, PinMode::Alternate.spec_bits()),
            sck_output_mode: MemoisedMode::spec_memoise(5, PinMode::Output.spec_bits()),
            sck_alternate_mode: MemoisedMode::spec_memoise(5, PinMode::Alternate.spec_bits()),
        }
    }

    pub fn new() -> (r: Pins)
        ensures
            r == Self::spec_new(),
            r.wf(),
    {
        let sck = Pin::new(Port::A, 5);
        let flash_si = Pin::new(Port::A, 7);
        Pins {
            led: Pin::new(Port::A, 2),
            cs: Pin::new(Port::A, 3),
            fpga_rst: Pin::new(Port::A, 4),
            sck,
            flash_so: Pin::new(Port::A, 6),
            flash_si,
            fpga_so: Pin::new(Port::B, 4),
            fpga_si: Pin::new(Port::B, 5),
            tpwr_det: Pin::new(Port::B, 6),
            tpwr_en: Pin::new(Port::B, 7),
            flash_si_input_mode: flash_si.memoise_mode_input(),
            flash_si_alternate_mode: flash_si.memoise_mode_alternate(),
            sck_output_mode: sck.memoise_mode_output(),
            sck_alternate_mode: sck.memoise_mode_alternate(),
        }
    }

    /// The pins after the initial configuration.
    pub open spec fn spec_setup(self) -> Pins {
        let spi = |p: Pin|
            Pin {
                af: 0,
                otype: OutputType::PushPull,
                ospeed: Speed::VeryHigh,
                mode: PinMode::Input,
                ..p
            };
        Pins {
            led: Pin {
                level: PinState::Low,
                otype: OutputType::PushPull,
                ospeed: Speed::Low,
                mode: PinMode::Output,
                ..self.led
            },
            cs: Pin {
                level: PinState::High,
                otype: OutputType::OpenDrain,
                ospeed: Speed::High,
                pull: Pull::Up,
                af: 1,
                mode: PinMode::Input,
                ..self.cs
            },
            fpga_rst: Pin {
                level: PinState::High,
                otype: OutputType::OpenDrain,
                ospeed: Speed::High,
                mode: PinMode::Input,
                ..self.fpga_rst
            },
            sck: spi(self.sck),
            flash_so: Pin { level: PinState::High, ..spi(self.flash_so) },
            flash_si: spi(self.flash_si),
            fpga_so: spi(self.fpga_so),
            fpga_si: spi(self.fpga_si),
            tpwr_det: Pin { mode: PinMode::Input, ..self.tpwr_det },
            tpwr_en: Pin {
                level: PinState::Low,
                mode: PinMode::Output,
                otype: OutputType::PushPull,
                ospeed: Speed::Low,
                ..self.tpwr_en
            },
            ..self
        }
    }

    /// Configures every pin for power-up: all shared pins are inputs, the LED
    /// and the target power switch are off, and the latch of `flash_so`, which
    /// doubles as nRESET, is high.
    pub fn setup(&mut self)
        ensures
            *final(self) == old(self).spec_setup(),
            final(self).flash_so.level == PinState::High,
            final(self).cs.otype == OutputType::OpenDrain,
    {
        self.led.set_low();
        self.led.set_otype_pushpull();
        self.led.set_ospeed_low();
        self.led.set_mode_output();

        self.cs.set_high();
        self.cs.set_otype_opendrain();
        self.cs.set_ospeed_high();
        self.cs.set_pull_up();
        self.cs.set_af(1);
        self.cs.set_mode_input();

        self.fpga_rst.set_high();
        self.fpga_rst.set_otype_opendrain();
        self.fpga_rst.set_ospeed_high();
        self.fpga_rst.set_mode_input();

        self.sck.set_af(0);
        self.sck.set_otype_pushpull();
        self.sck.set_ospeed_veryhigh();
        self.sck.set_mode_input();

        self.flash_so.set_af(0);
        self.flash_so.set_otype_pushpull();
        self.flash_so.set_ospeed_veryhigh();
        self.flash_so.set_high();
        self.flash_so.set_mode_input();

        self.flash_si.set_af(0);
        self.flash_si.set_otype_pushpull();
        self.flash_si.set_ospeed_veryhigh();
        self.flash_si.set_mode_input();

        self.fpga_so.set_af(0);
        self.fpga_so.set_otype_pushpull();
        self.fpga_so.set_ospeed_veryhigh();
        self.fpga_so.set_mode_input();

        self.fpga_si.set_af(0);
        self.fpga_si.set_otype_pushpull();
        self.fpga_si.set_ospeed_veryhigh();
        self.fpga_si.set_mode_input();

        self.tpwr_det.set_mode_input();

        self.tpwr_en.set_low();
        self.tpwr_en.set_mode_output();
        self.tpwr_en.set_otype_pushpull();
        self.tpwr_en.set_ospeed_low();
        proof {
            assert(0u8 & 0xF == 0u8 && 1u8 & 0xF == 1u8) by (bit_vector);
        }
    }

    /// The role of each shared pin in configuration `c`.
    pub open spec fn holds(self, c: PinConfig) -> bool {
        match c {
            PinConfig::HighImpedance => {
                &&& self.sck.mode == PinMode::Input
                &&& self.flash_si.mode == PinMode::Input
                &&& self.flash_so.mode == PinMode::Input
                &&& self.cs.mode == PinMode::Input
                &&& self.fpga_so.mode == PinMode::Input
                &&& self.fpga_so.level == PinState::High
                &&& self.fpga_si.mode == PinMode::Input
                &&& self.fpga_rst.mode == PinMode::Output
                &&& self.fpga_rst.otype == OutputType::OpenDrain
            },
            PinConfig::Flash => {
                &&& self.sck.mode == PinMode::Alternate
                &&& self.flash_si.mode == PinMode::Alternate
                &&& self.flash_so.mode == PinMode::Alternate
                &&& self.flash_so.otype == OutputType::PushPull
                &&& self.cs.mode == PinMode::Output
                &&& self.fpga_so.mode == PinMode::Input
                &&& self.fpga_si.mode == PinMode::Input
                &&& self.fpga_rst.mode == PinMode::Output
                &&& self.fpga_rst.otype == OutputType::OpenDrain
            },
            PinConfig::FPGA => {
                &&& self.sck.mode == PinMode::Alternate
                &&& self.flash_si.mode == PinMode::Input
                &&& self.flash_so.mode == PinMode::Input
                &&& self.cs.mode == PinMode::Output
                &&& self.fpga_so.mode == PinMode::Alternate
                &&& self.fpga_si.mode == PinMode::Alternate
                &&& self.fpga_rst.mode == PinMode::Output
                &&& self.fpga_rst.otype == OutputType::OpenDrain
            },
            PinConfig::SWD => {
                &&& self.sck.mode == PinMode::Alternate
                &&& self.sck.pull == Pull::Up
                &&& self.flash_si.mode == PinMode::Alternate
                &&& self.flash_so.mode == PinMode::Output
                &&& self.flash_so.otype == OutputType::OpenDrain
                &&& self.cs.mode == PinMode::Alternate
                &&& self.fpga_so.mode == PinMode::Alternate
                &&& self.fpga_si.mode == PinMode::Input
                &&& self.fpga_rst.mode == PinMode::Input
            },
            PinConfig::JTAG => {
                &&& self.sck.mode == PinMode::Output
                &&& self.flash_si.mode == PinMode::Output
                &&& self.flash_so.mode == PinMode::Output
                &&& self.flash_so.otype == OutputType::OpenDrain
                &&& self.cs.mode == PinMode::Input
                &&& self.fpga_so.mode == PinMode::Input
                &&& self.fpga_si.mode == PinMode::Input
                &&& self.fpga_rst.mode == PinMode::Output
                &&& self.fpga_rst.otype == OutputType::PushPull
            },
        }
    }

    /// The pins after the transition into configuration `c`. A transition
    /// changes directions, output types and pulls; the only output latch it
    /// writes is that of `fpga_so`, on the way to high impedance.
    pub open spec fn spec_enter(self, c: PinConfig) -> Pins {
        let rst_od = Pin {
            otype: OutputType::OpenDrain,
            mode: PinMode::Output,
            ..self.fpga_rst
        };
        let nreset = Pin {
            otype: OutputType::OpenDrain,
            mode: PinMode::Output,
            ..self.flash_so
        };
        match c {
            PinConfig::HighImpedance => Pins {
                cs: Pin { mode: PinMode::Input, ..self.cs },
                sck: Pin { mode: PinMode::Input, ..self.sck },
                flash_so: Pin { mode: PinMode::Input, ..self.flash_so },
                flash_si: Pin { mode: PinMode::Input, ..self.flash_si },
                fpga_so: Pin { mode: PinMode::Input, level: PinState::High, ..self.fpga_so },
                fpga_si: Pin { mode: PinMode::Input, ..self.fpga_si },
                fpga_rst: rst_od,
                ..self
            },
            PinConfig::Flash => Pins {
                cs: Pin { mode: PinMode::Output, ..self.cs },
                sck: Pin { mode: PinMode::Alternate, ..self.sck },
                fpga_so: Pin { mode: PinMode::Input, ..self.fpga_so },
                fpga_si: Pin { mode: PinMode::Input, ..self.fpga_si },
                flash_so: Pin {
                    otype: OutputType::PushPull,
                    mode: PinMode::Alternate,
                    ..self.flash_so
                },
                flash_si: Pin { mode: PinMode::Alternate, ..self.flash_si },
                fpga_rst: rst_od,
                ..self
            },
            PinConfig::FPGA => Pins {
                cs: Pin { mode: PinMode::Output, ..self.cs },
                sck: Pin { mode: PinMode::Alternate, ..self.sck },
                flash_so: Pin { mode: PinMode::Input, ..self.flash_so },
                flash_si: Pin { mode: PinMode::Input, ..self.flash_si },
                fpga_so: Pin { mode: PinMode::Alternate, ..self.fpga_so },
                fpga_si: Pin { mode: PinMode::Alternate, ..self.fpga_si },
                fpga_rst: rst_od,
                ..self
            },
            PinConfig::SWD => Pins {
                cs: Pin { mode: PinMode::Alternate, ..self.cs },
                sck: Pin { mode: PinMode::Alternate, pull: Pull::Up, ..self.sck },
                flash_so: nreset,
                flash_si: Pin { mode: PinMode::Alternate, ..self.flash_si },
                fpga_so: Pin { mode: PinMode::Alternate, ..self.fpga_so },
                fpga_si: Pin { mode: PinMode::Input, ..self.fpga_si },
                fpga_rst: Pin { mode: PinMode::Input, ..self.fpga_rst },
                ..self
            },
            PinConfig::JTAG => Pins {
                sck: Pin { mode: PinMode::Output, ..self.sck },
                flash_si: Pin { mode: PinMode::Output, ..self.flash_si },
                cs: Pin { mode: PinMode::Input, ..self.cs },
                fpga_rst: Pin {
                    otype: OutputType::PushPull,
                    mode: PinMode::Output,
                    ..self.fpga_rst
                },
                flash_so: nreset,
                fpga_si: Pin { mode: PinMode::Input, ..self.fpga_si },
                fpga_so: Pin { mode: PinMode::Input, ..self.fpga_so },
                ..self
            },
        }
    }

    /// Places the shared pins into FPGA-programming mode.
    pub fn fpga_mode(&mut self)
        ensures
            *final(self) == old(self).spec_enter(PinConfig::FPGA),
            final(self).holds(PinConfig::FPGA),
    {
        self.cs.set_mode_output();
        self.sck.set_mode_alternate();
        self.flash_so.set_mode_input();
        self.flash_si.set_mode_input();
        self.fpga_so.set_mode_alternate();
        self.fpga_si.set_mode_alternate();
        self.fpga_rst.set_otype_opendrain();
        self.fpga_rst.set_mode_output();
    }

    /// Places the shared pins into flash-programming mode.
    pub fn flash_mode(&mut self)
        ensures
            *final(self) == old(self).spec_enter(PinConfig::Flash),
            final(self).holds(PinConfig::Flash),
    {
        self.cs.set_mode_output();
        self.sck.set_mode_alternate();
        self.fpga_so.set_mode_input();
        self.fpga_si.set_mode_input();
        self.flash_so.set_otype_pushpull();
        self.flash_so.set_mode_alternate();
        self.flash_si.set_mode_alternate();
        self.fpga_rst.set_otype_opendrain();
        self.fpga_rst.set_mode_output();
    }

    /// Places the shared pins into high-impedance mode.
    pub fn high_impedance_mode(&mut self)
        ensures
            *final(self) == old(self).spec_enter(PinConfig::HighImpedance),
            final(self).holds(PinConfig::HighImpedance),
    {
        self.cs.set_mode_input();
        self.sck.set_mode_input();
        self.flash_so.set_mode_input();
        self.flash_si.set_mode_input();
        self.fpga_so.set_mode_input();
        self.fpga_so.set_high();
        self.fpga_si.set_mode_input();
        self.fpga_rst.set_otype_opendrain();
        self.fpga_rst.set_mode_output();
    }

    /// Places the shared pins into SWD mode: `sck` is the SPI clock, `flash_si`
    /// is SWDIO, `flash_so` is the open-drain nRESET and `cs` receives SWO. The
    /// latch of `flash_so` is left as it is, so a reset asserted before the
    /// connection stays asserted.
    pub fn swd_mode(&mut self)
        ensures
            *final(self) == old(self).spec_enter(PinConfig::SWD),
            final(self).holds(PinConfig::SWD),
    {
        self.cs.set_mode_alternate();
        self.sck.set_mode_alternate();
        self.sck.set_pull_up();
        self.flash_so.set_otype_opendrain();
        self.flash_so.set_mode_output();
        self.flash_si.set_mode_alternate();
        self.fpga_so.set_mode_alternate();
        self.fpga_si.set_mode_input();
        self.fpga_rst.set_mode_input();
    }

    /// Places the shared pins into JTAG mode: `sck` is JTCK, `flash_si` is JTMS,
    /// `cs` is JTDO, `fpga_rst` is JTDI and `flash_so` is the open-drain nRESET.
    pub fn jtag_mode(&mut self)
        ensures
            *final(self) == old(self).spec_enter(PinConfig::JTAG),
            final(self).holds(PinConfig::JTAG),
    {
        self.sck.set_mode_output();
        self.flash_si.set_mode_output();
        self.cs.set_mode_input();
        self.fpga_rst.set_otype_pushpull();
        self.fpga_rst.set_mode_output();
        self.flash_so.set_otype_opendrain();
        self.flash_so.set_mode_output();
        self.fpga_si.set_mode_input();
        self.fpga_so.set_mode_input();
    }

    /// Performs the transition into configuration `c`.
    pub fn enter(&mut self, c: PinConfig)
        ensures
            *final(self) == old(self).spec_enter(c),
            final(self).holds(c),
    {
        match c {
            PinConfig::HighImpedance => self.high_impedance_mode(),
            PinConfig::Flash => self.flash_mode(),
            PinConfig::FPGA => self.fpga_mode(),
            PinConfig::SWD => self.swd_mode(),
            PinConfig::JTAG => self.jtag_mode(),
        }
    }

    /// Hands SWDIO to the target: `flash_si` becomes an input.
    pub fn swd_rx(&mut self)
        ensures
            *final(self) == (Pins {
                flash_si: Pin {
                    mode: old(self).flash_si_input_mode.spec_mode_for(old(self).flash_si.n),
                    ..old(self).flash_si
                },
                ..*old(self)
            }),
            old(self).wf() ==> final(self).flash_si.mode == PinMode::Input,
    {
        proof {
            if self.wf() {
                lemma_memoised_mode(0, self.flash_si.n, PinMode::Input);
            }
        }
        self.flash_si.apply_memoised_mode(self.flash_si_input_mode);
    }

    /// Takes SWDIO back: `flash_si` is driven by the SPI block again.
    pub fn swd_tx(&mut self)
        ensures
            *final(self) == (Pins {
                flash_si: Pin {
                    mode: old(self).flash_si_alternate_mode.spec_mode_for(old(self).flash_si.n),
                    ..old(self).flash_si
                },
                ..*old(self)
            }),
            old(self).wf() ==> final(self).flash_si.mode == PinMode::Alternate,
    {
        proof {
            if self.wf() {
                lemma_memoised_mode(0, self.flash_si.n, PinMode::Alternate);
            }
        }
        self.flash_si.apply_memoised_mode(self.flash_si_alternate_mode);
    }

    /// Makes the clock pin a plain output, to be driven by hand.
    pub fn swd_clk_direct(&mut self)
        ensures
            *final(self) == (Pins {
                sck: Pin {
                    mode: old(self).sck_output_mode.spec_mode_for(old(self).sck.n),
                    ..old(self).sck
                },
                ..*old(self)
            }),
            old(self).wf() ==> final(self).sck.mode == PinMode::Output,
    {
        proof {
            if self.wf() {
                lemma_memoised_mode(0, self.sck.n, PinMode::Output);
            }
        }
        self.sck.apply_memoised_mode(self.sck_output_mode);
    }

    /// Gives the clock pin back to the SPI block.
    pub fn swd_clk_spi(&mut self)
        ensures
            *final(self) == (Pins {
                sck: Pin {
                    mode: old(self).sck_alternate_mode.spec_mode_for(old(self).sck.n),
                    ..old(self).sck
                },
                ..*old(self)
            }),
            old(self).wf() ==> final(self).sck.mode == PinMode::Alternate,
    {
        proof {
            if self.wf() {
                lemma_memoised_mode(0, self.sck.n, PinMode::Alternate);
            }
        }
        self.sck.apply_memoised_mode(self.sck_alternate_mode);
    }
}

/// After every transition the role table of the new configuration holds,
/// whatever the pins were before. The transition writes no output latch of a
/// pin that it turns into an output, so a line that was released stays
/// released: with its latch high, the open-drain nRESET does not drive, and
/// the latch of every pin but `fpga_so` is as it was.
pub proof fn lemma_transition_table(p: Pins, c: PinConfig)
    ensures
        p.spec_enter(c).holds(c),
        p.spec_enter(c).wf() == p.wf(),
        p.spec_enter(c).flash_so.level == p.flash_so.level,
        p.spec_enter(c).cs.level == p.cs.level,
        p.spec_enter(c).sck.level == p.sck.level,
        p.spec_enter(c).flash_si.level == p.flash_si.level,
        p.spec_enter(c).fpga_si.level == p.fpga_si.level,
        p.spec_enter(c).fpga_rst.level == p.fpga_rst.level,
        p.spec_enter(c).fpga_so.mode != PinMode::Output,
        p.flash_so.level == PinState::High ==> !p.spec_enter(c).flash_so.drives(),
{
}

/// Entering a configuration twice is the same as entering it once.
pub proof fn lemma_transition_idempotent(p: Pins, c: PinConfig)
    ensures
        p.spec_enter(c).spec_enter(c) == p.spec_enter(c),
{
}

/// Leaving SWD for high impedance and entering SWD again gives back the pins
/// as they were, for pins in SWD mode whose `fpga_so` latch is high and whose
/// `fpga_rst` driver is open-drain, as both are on every path from power-up
/// through high impedance to SWD.
pub proof fn lemma_swd_reconnect(p: Pins)
    requires
        p.holds(PinConfig::SWD),
        p.fpga_so.level == PinState::High,
        p.fpga_rst.otype == OutputType::OpenDrain,
    ensures
        p.spec_enter(PinConfig::HighImpedance).spec_enter(PinConfig::SWD) == p,
{
}

} // verus!
