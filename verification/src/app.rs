//! Requests that the USB stack hands to the application, and the application
//! state that they act on.

use vstd::prelude::*;
use crate::bootload::FLAG_VALUE;
use crate::dap::{
    spec_immediate, spec_pins_after, spec_settings_after, spec_spi_after, Action, Command,
    Resumed, DAP,
};
use crate::gpio::{Pin, PinConfig, Pins};
use crate::jtag::{spec_sequences, Sequence, JTAG};
use crate::spi::SPI;
use crate::swd::Error;
use crate::usb::endpoints::EndpointKind;
use crate::usb::{BufferAddr, Stat, USB};

verus! {

/// Logic level of a pin.
#[derive(Copy, Clone, PartialEq, Eq, Structural, Debug)]
pub enum PinState {
    Low,
    High,
}

impl PinState {
    /// The wire encoding of a level: 0 is low, 1 is high.
    pub open spec fn spec_from_u16(v: u16) -> Option<PinState> {
        if v == 0 {
            Some(PinState::Low)
        } else if v == 1 {
            Some(PinState::High)
        } else {
            None
        }
    }

    /// Decodes a level from a request value; anything but 0 and 1 is refused.
    pub fn try_from_u16(v: u16) -> (r: Option<PinState>)
        ensures
            r == Self::spec_from_u16(v),
    {
        if v == 0 {
            Some(PinState::Low)
        } else if v == 1 {
            Some(PinState::High)
        } else {
            None
        }
    }

    pub open spec fn spec_bit(self) -> u8 {
        match self {
            PinState::Low => 0u8,
            PinState::High => 1u8,
        }
    }

    /// The level as a single bit.
    pub fn bit(self) -> (r: u8)
        ensures
            r == self.spec_bit(),
    {
        match self {
            PinState::Low => 0,
            PinState::High => 1,
        }
    }

    /// The level for a boolean: `true` is high.
    pub fn from_bool(b: bool) -> (r: PinState)
        ensures
            r == (if b { PinState::High } else { PinState::Low }),
    {
        if b {
            PinState::High
        } else {
            PinState::Low
        }
    }
}

/// Operating mode of the adapter's shared pins, as selected by the host.
#[derive(Copy, Clone, PartialEq, Eq, Structural, Debug)]
pub enum Mode {
    HighImpedance,
    Flash,
    FPGA,
    JTAG,
}

impl Mode {
    pub open spec fn spec_from_u16(v: u16) -> Option<Mode> {
        if v == 0 {
            Some(Mode::HighImpedance)
        } else if v == 1 {
            Some(Mode::Flash)
        } else if v == 2 {
            Some(Mode::FPGA)
        } else if v == 3 {
            Some(Mode::JTAG)
        } else {
            None
        }
    }

    /// Decodes a mode from a request value; anything above 3 is refused.
    pub fn try_from_u16(v: u16) -> (r: Option<Mode>)
        ensures
            r == Self::spec_from_u16(v),
    {
        if v == 0 {
            Some(Mode::HighImpedance)
        } else if v == 1 {
            Some(Mode::Flash)
        } else if v == 2 {
            Some(Mode::FPGA)
        } else if v == 3 {
            Some(Mode::JTAG)
        } else {
            None
        }
    }
}

/// A request that the USB stack hands to the application.
#[derive(Clone, Debug)]
pub enum Request {
    SetCS(PinState),
    SetFPGA(PinState),
    SetTPwr(PinState),
    SetLED(PinState),
    SetMCU(PinState),
    SetMode(Mode),
    GetTPwr,
    Bootload,
    Suspend,
    /// Bytes received on the SPI bulk endpoint.
    SPITransmit(Vec<u8>),
    /// A CMSIS-DAP command received as a HID report.
    DAP1Command(Vec<u8>),
    /// A CMSIS-DAP command received on the bulk endpoint.
    DAP2Command(Vec<u8>),
}

impl Mode {
    /// The pin configuration of a mode.
    pub open spec fn spec_config(self) -> PinConfig {
        match self {
            Mode::HighImpedance => PinConfig::HighImpedance,
            Mode::Flash => PinConfig::Flash,
            Mode::FPGA => PinConfig::FPGA,
            Mode::JTAG => PinConfig::JTAG,
        }
    }
}

/// What the application asks of its caller after a request: work on the
/// hardware whose outcome it needs.
pub enum AppAction {
    /// Nothing is left to do.
    Done,
    /// Exchange these bytes on the SPI bus and hand the bytes received to
    /// `App::spi_reply`.
    SpiExchange(Vec<u8>),
    /// Clock these sequences out on the JTAG pins, pack the samples of each
    /// capturing sequence, and hand the bytes to `App::spi_reply`.
    JtagSequences(Vec<Sequence>),
    /// Read the target power rail and hand its level to `App::tpwr_reply`.
    ReadTPwr,
    /// Store this value in the bootload latch and reset the system.
    Bootload(u32),
    /// Do what the interpreter asks for; the response goes to this endpoint.
    Dap(EndpointKind, Action),
}

/// The pins in the low-power state: at high impedance, with the LED and the
/// target power switch off.
#[verifier::opaque]
pub open spec fn spec_suspended(pins: Pins) -> Pins {
    Pins {
        led: Pin { level: PinState::Low, ..pins.led },
        tpwr_en: Pin { level: PinState::Low, ..pins.tpwr_en },
        ..pins.spec_enter(PinConfig::HighImpedance)
    }
}

/// Whether `data` is the packet loaded on the CMSIS-DAP endpoint of kind
/// `kind`.
pub open spec fn sent_on(usb: &USB, kind: EndpointKind, data: Seq<u8>) -> bool {
    match kind {
        EndpointKind::DAP1 => usb.dap1_endpoint.packet() == data,
        EndpointKind::DAP2 => usb.dap2_endpoint.packet() == data,
        EndpointKind::SPI => true,
    }
}

/// What serving a CMSIS-DAP command does to the application: the pins, the
/// SPI block and the interpreter's settings change as the command says, and
/// the response of a command that is answered at once is loaded on the
/// endpoint that the command came in on. `done` says that nothing was left
/// for the caller to do. An empty report changes nothing and is not
/// answered.
#[verifier::opaque]
pub open spec fn command_served(
    after: &App,
    before: &App,
    kind: EndpointKind,
    report: Seq<u8>,
    available: u32,
    done: bool,
) -> bool {
    if report.len() == 0 {
        done && after.pins == before.pins && after.spi == before.spi
    } else {
        let command = Command::spec_from_u8(report[0]);
        let d = report.skip(1);
        &&& after.pins == spec_pins_after(command, d, before.pins)
        &&& after.spi == spec_spi_after(command, d, before.spi)
        &&& after.dap.settings() == spec_settings_after(command, d, before.dap.settings())
        &&& match spec_immediate(command, d, &before.dap, available) {
            Some(bytes) => done && (bytes.len() <= 64 ==> sent_on(&after.usb, kind, bytes)),
            None => true,
        }
    }
}

/// What the main loop does next.
#[derive(Copy, Clone, PartialEq, Eq, Structural, Debug)]
pub enum PollStep {
    /// Serve the USB interrupt.
    Interrupt,
    /// Read the trace buffer and stream what it holds.
    StreamSwo,
    /// Sleep until the next event.
    Sleep,
}

/// All that a mode switch sets.
pub struct ModeState {
    pub mode: Mode,
    pub pins: Pins,
    pub spi: SPI,
    /// Whether the SPI bulk endpoint takes data.
    pub spi_rx: Stat,
    /// Whether the CMSIS-DAP v1 endpoint takes commands.
    pub dap1_rx: Stat,
    /// Whether the CMSIS-DAP v2 endpoint takes commands.
    pub dap2_rx: Stat,
}

impl ModeState {
    /// The state after a switch to mode `m`: the pins enter the mode's
    /// configuration; the SPI bulk endpoint takes data in every mode but
    /// high impedance, and the CMSIS-DAP endpoints take commands in high
    /// impedance only; the SPI block has its SPI profile for flash and FPGA
    /// and is off otherwise.
    #[verifier::opaque]
    pub open spec fn set_mode(self, m: Mode) -> ModeState {
        ModeState {
            mode: m,
            pins: self.pins.spec_enter(m.spec_config()),
            spi: if m == Mode::Flash || m == Mode::FPGA {
                SPI::spec_profile_spi()
            } else {
                SPI { enabled: false, ..self.spi }
            },
            spi_rx: if m == Mode::HighImpedance {
                Stat::Stall
            } else {
                Stat::Valid
            },
            dap1_rx: if m == Mode::HighImpedance {
                Stat::Valid
            } else {
                Stat::Stall
            },
            dap2_rx: if m == Mode::HighImpedance {
                Stat::Valid
            } else {
                Stat::Stall
            },
        }
    }
}

/// Switching to a mode twice is the same as switching to it once.
pub proof fn lemma_set_mode_idempotent(s: ModeState, m: Mode)
    ensures
        s.set_mode(m).set_mode(m) == s.set_mode(m),
{
    reveal(ModeState::set_mode);
    crate::gpio::lemma_transition_idempotent(s.pins, m.spec_config());
}

/// The application: every component, and the mode of the shared pins.
pub struct App {
    pub pins: Pins,
    pub spi: SPI,
    pub jtag: JTAG,
    pub usb: USB,
    pub dap: DAP,
    pub mode: Mode,
}

impl App {
    pub open spec fn wf(&self) -> bool {
        self.usb.wf() && self.dap.wf()
    }

    /// All that a mode switch sets.
    pub open spec fn mode_state(&self) -> ModeState {
        ModeState {
            mode: self.mode,
            pins: self.pins,
            spi: self.spi,
            spi_rx: self.usb.spi_endpoint.stat_rx,
            dap1_rx: self.usb.dap1_endpoint.stat_rx,
            dap2_rx: self.usb.dap2_endpoint.stat_rx,
        }
    }

    /// An application in high-impedance mode.
    pub fn new(pins: Pins, spi: SPI, jtag: JTAG, usb: USB, dap: DAP) -> (r: App)
        requires
            usb.wf(),
            dap.wf(),
        ensures
            r.wf(),
            r.mode == Mode::HighImpedance,
            r.pins == pins,
            r.spi == spi,
            r.usb == usb,
            r.dap == dap,
    {
        App { pins, spi, jtag, usb, dap, mode: Mode::HighImpedance }
    }

    /// Configures the pins and brings the USB device up. `addrs` are the
    /// places of the five endpoints' buffers in packet memory.
    pub fn setup(&mut self, addrs: &[BufferAddr])
        requires
            old(self).wf(),
            addrs@.len() == 5,
        ensures
            final(self).wf(),
            final(self).pins == old(self).pins.spec_setup(),
            final(self).usb.attached,
            final(self).usb.address == 0,
            final(self).mode == old(self).mode,
            final(self).spi == old(self).spi,
            final(self).dap == old(self).dap,
    {
        self.pins.setup();
        self.usb.setup(addrs);
    }

    /// What the main loop does next: the USB interrupt comes first; trace
    /// data is streamed while streaming is on and the stream endpoint is
    /// free; else the processor sleeps.
    pub fn poll(&self, usb_pending: bool) -> (r: PollStep)
        ensures
            r == (if usb_pending {
                PollStep::Interrupt
            } else if self.dap.swo_active && self.dap.swo_streaming
                && !self.usb.swo_endpoint.tx_busy {
                PollStep::StreamSwo
            } else {
                PollStep::Sleep
            }),
    {
        if usb_pending {
            PollStep::Interrupt
        } else if self.dap.is_swo_streaming() && !self.usb.dap2_swo_is_busy() {
            PollStep::StreamSwo
        } else {
            PollStep::Sleep
        }
    }

    /// Switches to mode `mode`.
    pub fn set_mode(&mut self, mode: Mode)
        requires
            old(self).wf(),
        ensures
            final(self).wf(),
            final(self).mode_state() == old(self).mode_state().set_mode(mode),
            final(self).dap == old(self).dap,
            final(self).jtag == old(self).jtag,
    {
        proof {
            reveal(ModeState::set_mode);
        }
        self.mode = mode;
        match mode {
            Mode::HighImpedance => {
                self.pins.high_impedance_mode();
                self.usb.spi_data_disable();
                self.usb.dap_enable();
                self.spi.disable();
            },
            Mode::Flash => {
                self.pins.flash_mode();
                self.usb.spi_data_enable();
                self.usb.dap_disable();
                self.spi.setup_spi();
            },
            Mode::FPGA => {
                self.pins.fpga_mode();
                self.usb.spi_data_enable();
                self.usb.dap_disable();
                self.spi.setup_spi();
            },
            Mode::JTAG => {
                self.pins.jtag_mode();
                self.usb.spi_data_enable();
                self.usb.dap_disable();
                self.spi.disable();
            },
        }
    }

    /// The low-power state: pins at high impedance, LED and target power
    /// off.
    pub fn suspend(&mut self)
        ensures
            final(self).jtag == old(self).jtag,
            final(self).pins == spec_suspended(old(self).pins),
            final(self).spi == old(self).spi,
            final(self).usb == old(self).usb,
            final(self).dap == old(self).dap,
            final(self).mode == old(self).mode,
    {
        proof {
            reveal(spec_suspended);
        }
        self.pins.high_impedance_mode();
        self.pins.led.set_low();
        self.pins.tpwr_en.set_low();
    }

    /// Hands a CMSIS-DAP command to the interpreter. A response that is
    /// ready goes out on the endpoint that the command came in on; work that
    /// the interpreter asks for is handed on.
    pub fn dap_command(&mut self, kind: EndpointKind, report: &[u8], available: u32) -> (r:
        AppAction)
        requires
            old(self).wf(),
        ensures
            final(self).wf(),
            final(self).mode == old(self).mode,
            report@.len() == 0 ==> (r matches AppAction::Done) && final(self).pins == old(
                self,
            ).pins && final(self).spi == old(self).spi,
            report@.len() > 0 ==> ({
                let command = Command::spec_from_u8(report@[0]);
                let d = report@.skip(1);
                &&& final(self).pins == spec_pins_after(command, d, old(self).pins)
                &&& final(self).spi == spec_spi_after(command, d, old(self).spi)
                &&& final(self).dap.settings() == spec_settings_after(
                    command,
                    d,
                    old(self).dap.settings(),
                )
                &&& match spec_immediate(command, d, &old(self).dap, available) {
                    Some(bytes) => (r matches AppAction::Done) && (bytes.len() <= 64
                        ==> self::sent_on(&final(self).usb, kind, bytes)),
                    None => true,
                }
            }),            command_served(
                final(self),
                old(self),
                kind,
                report@,
                available,
                r matches AppAction::Done,
            ),
    {
        proof {
            reveal(command_served);
        }
        let action = self.dap.process_command(report, &mut self.pins, &mut self.spi, available);
        self.dap_action(kind, action)
    }

    /// Hands the result of a transaction to the interpreter, and deals with
    /// what it answers as `dap_command` does.
    pub fn dap_resume(&mut self, kind: EndpointKind, result: Result<u32, Error>) -> (r: AppAction)
        requires
            old(self).wf(),
        ensures
            final(self).wf(),
            final(self).mode == old(self).mode,
            final(self).pins == old(self).pins,
            final(self).spi == old(self).spi,
            final(self).jtag == old(self).jtag,
            final(self).dap.resumed(&old(self).dap, result),
            match old(self).dap.spec_resume_swd(result) {
                Resumed::Reply(Some(bytes)) => (r matches AppAction::Done) && self::sent_on(
                    &final(self).usb,
                    kind,
                    bytes,
                ),
                Resumed::Reply(None) => (r matches AppAction::Done) && final(self).usb == old(
                    self,
                ).usb,
                Resumed::Swd(op) => (r matches AppAction::Dap(k, a) && k == kind && (
                a matches Action::Swd(o) && o == op)) && final(self).usb == old(self).usb,
            },
    {
        let action = self.dap.resume_swd(result);
        self.dap_action(kind, action)
    }

    /// Sends a response of the interpreter on the endpoint of kind `kind`;
    /// the SPI endpoint carries none.
    pub fn dap_reply(&mut self, kind: EndpointKind, data: &[u8])
        requires
            old(self).wf(),
            data@.len() <= 64,
        ensures
            final(self).wf(),
            final(self).mode == old(self).mode,
            final(self).pins == old(self).pins,
            final(self).spi == old(self).spi,
            final(self).dap == old(self).dap,
            final(self).jtag == old(self).jtag,
            kind == EndpointKind::DAP1 ==> final(self).usb.dap1_endpoint.packet() == data@,
            kind == EndpointKind::DAP2 ==> final(self).usb.dap2_endpoint.packet() == data@,
            kind == EndpointKind::SPI ==> final(self).usb == old(self).usb,
    {
        match kind {
            EndpointKind::DAP1 => self.usb.dap1_reply(data),
            EndpointKind::DAP2 => self.usb.dap2_reply(data),
            EndpointKind::SPI => {},
        }
    }

    /// Deals with what the interpreter answered: a response goes out, no
    /// response ends the command, and anything else is handed on.
    fn dap_action(&mut self, kind: EndpointKind, action: Action) -> (r: AppAction)
        requires
            old(self).wf(),
        ensures
            final(self).wf(),
            final(self).mode == old(self).mode,
            final(self).pins == old(self).pins,
            final(self).spi == old(self).spi,
            final(self).dap == old(self).dap,
            final(self).jtag == old(self).jtag,
            !(action matches Action::Reply(Some(_))) ==> final(self).usb == old(self).usb,
            action matches Action::Reply(_) ==> (r matches AppAction::Done),
            !(action matches Action::Reply(_)) ==> r == AppAction::Dap(kind, action),
            action matches Action::Reply(Some(data)) ==> data@.len() <= 64 ==> self::sent_on(
                &final(self).usb,
                kind,
                data@,
            ),
    {
        match action {
            Action::Reply(Some(data)) => {
                if data.len() <= 64 {
                    self.dap_reply(kind, data.as_slice());
                }
                AppAction::Done
            },
            Action::Reply(None) => AppAction::Done,
            other => AppAction::Dap(kind, other),
        }
    }

    /// Sends the bytes received in an SPI or JTAG exchange to the host; more
    /// than a packet holds is cut off.
    pub fn spi_reply(&mut self, rx: &[u8])
        requires
            old(self).wf(),
        ensures
            final(self).wf(),
            final(self).usb.spi_endpoint.packet() == (if rx@.len() <= 64 {
                rx@
            } else {
                rx@.subrange(0, 64)
            }),
    {
        if rx.len() <= 64 {
            self.usb.spi_data_reply(rx);
        } else {
            let cut = vstd::slice::slice_subrange(rx, 0, 64);
            self.usb.spi_data_reply(cut);
        }
    }

    /// Sends the level of the target power rail to the host.
    pub fn tpwr_reply(&mut self, tpwr: PinState)
        requires
            old(self).wf(),
        ensures
            final(self).wf(),
            final(self).usb.ctl_endpoint.sent(
                &old(self).usb.ctl_endpoint,
                seq![tpwr.spec_bit(), 0u8],
            ),
    {
        self.usb.tpwr_reply(tpwr);
    }

    /// Sets the output latch of the chip select.
    pub fn set_cs(&mut self, state: PinState)
        ensures
            *final(self) == (App {
                pins: Pins { cs: Pin { level: state, ..old(self).pins.cs }, ..old(self).pins },
                ..*old(self)
            }),
    {
        self.pins.cs.set_state(state);
    }

    /// Sets the output latch of the FPGA reset.
    pub fn set_fpga(&mut self, state: PinState)
        ensures
            *final(self) == (App {
                pins: Pins { fpga_rst: Pin { level: state, ..old(self).pins.fpga_rst }, ..old(self).pins },
                ..*old(self)
            }),
    {
        self.pins.fpga_rst.set_state(state);
    }

    /// Sets the output latch of the target power switch.
    pub fn set_tpwr(&mut self, state: PinState)
        ensures
            *final(self) == (App {
                pins: Pins { tpwr_en: Pin { level: state, ..old(self).pins.tpwr_en }, ..old(self).pins },
                ..*old(self)
            }),
    {
        self.pins.tpwr_en.set_state(state);
    }

    /// Sets the output latch of the LED.
    pub fn set_led(&mut self, state: PinState)
        ensures
            *final(self) == (App {
                pins: Pins { led: Pin { level: state, ..old(self).pins.led }, ..old(self).pins },
                ..*old(self)
            }),
    {
        self.pins.led.set_state(state);
    }

    /// Sets the output latch of the target reset.
    pub fn set_mcu(&mut self, state: PinState)
        ensures
            *final(self) == (App {
                pins: Pins { flash_so: Pin { level: state, ..old(self).pins.flash_so }, ..old(self).pins },
                ..*old(self)
            }),
    {
        self.pins.flash_so.set_state(state);
    }

    /// What becomes of data from the SPI endpoint: exchanged on the SPI bus
    /// in flash and FPGA mode, read as JTAG sequences in JTAG mode, dropped in
    /// high impedance.
    pub fn spi_transmit(&self, tx: Vec<u8>) -> (r: AppAction)
        ensures
            match self.mode {
                Mode::Flash => r == AppAction::SpiExchange(tx),
                Mode::FPGA => r == AppAction::SpiExchange(tx),
                Mode::JTAG => r matches AppAction::JtagSequences(seqs) && (tx@.len() > 0
                    ==> seqs@.map_values(|s: Sequence| s@) == spec_sequences(
                    tx@.skip(1),
                    tx@[0] as int,
                )) && (tx@.len() == 0 ==> seqs@.len() == 0),
                Mode::HighImpedance => r matches AppAction::Done,
            },
    {
        match self.mode {
            Mode::Flash => AppAction::SpiExchange(tx),
            Mode::FPGA => AppAction::SpiExchange(tx),
            Mode::JTAG => AppAction::JtagSequences(self.jtag.sequences(tx.as_slice())),
            Mode::HighImpedance => AppAction::Done,
        }
    }

    /// Serves a request of the USB stack. Pin requests set the output latch
    /// of their pin; a mode request switches the mode; data from the SPI
    /// endpoint is exchanged on the SPI bus in flash and FPGA mode, read as
    /// JTAG sequences in JTAG mode and dropped in high impedance; commands
    /// go to the interpreter; a bootload request asks for the latch to be set
    /// and the system reset; suspension turns everything off.
    pub fn process_request(&mut self, req: Request, available: u32) -> (r: AppAction)
        requires
            old(self).wf(),
        ensures
            final(self).wf(),
            req matches Request::SetCS(s) ==> (r matches AppAction::Done) && *final(self) == (App {
                pins: Pins { cs: Pin { level: s, ..old(self).pins.cs }, ..old(self).pins },
                ..*old(self)
            }),
            req matches Request::SetFPGA(s) ==> (r matches AppAction::Done) && *final(self) == (App {
                pins: Pins {
                    fpga_rst: Pin { level: s, ..old(self).pins.fpga_rst },
                    ..old(self).pins
                },
                ..*old(self)
            }),
            req matches Request::SetTPwr(s) ==> (r matches AppAction::Done) && *final(self) == (App {
                pins: Pins { tpwr_en: Pin { level: s, ..old(self).pins.tpwr_en }, ..old(self).pins },
                ..*old(self)
            }),
            req matches Request::SetLED(s) ==> (r matches AppAction::Done) && *final(self) == (App {
                pins: Pins { led: Pin { level: s, ..old(self).pins.led }, ..old(self).pins },
                ..*old(self)
            }),
            req matches Request::SetMCU(s) ==> (r matches AppAction::Done) && *final(self) == (App {
                pins: Pins { flash_so: Pin { level: s, ..old(self).pins.flash_so }, ..old(self).pins },
                ..*old(self)
            }),
            req matches Request::SetMode(m) ==> (r matches AppAction::Done) && final(self).mode_state() == old(self).mode_state().set_mode(m) && final(self).dap == old(
                self,
            ).dap,
            req matches Request::GetTPwr ==> (r matches AppAction::ReadTPwr) && *final(self)
                == *old(self),
            req matches Request::Bootload ==> r == AppAction::Bootload(FLAG_VALUE) && *final(self)
                == *old(self),
            req matches Request::Suspend ==> (r matches AppAction::Done) && final(self).pins
                == spec_suspended(old(self).pins) && final(self).mode == old(self).mode && final(self).usb == old(self).usb,
            req matches Request::SPITransmit(tx) ==> *final(self) == *old(self) && (old(self).mode
                == Mode::Flash || old(self).mode == Mode::FPGA ==> r == AppAction::SpiExchange(tx))
                && (old(self).mode == Mode::HighImpedance ==> (r matches AppAction::Done)) && (old(
                self,
            ).mode == Mode::JTAG ==> (r matches AppAction::JtagSequences(seqs) && (tx@.len() > 0
                ==> seqs@.map_values(|s: Sequence| s@) == spec_sequences(
                tx@.skip(1),
                tx@[0] as int,
            )))),
            req matches Request::DAP1Command(report) ==> final(self).mode == old(self).mode
                && command_served(
                final(self),
                old(self),
                EndpointKind::DAP1,
                report@,
                available,
                r matches AppAction::Done,
            ),
            req matches Request::DAP2Command(report) ==> final(self).mode == old(self).mode
                && command_served(
                final(self),
                old(self),
                EndpointKind::DAP2,
                report@,
                available,
                r matches AppAction::Done,
            ),
    {
        match req {
            Request::SetCS(state) => {
                self.set_cs(state);
                AppAction::Done
            },
            Request::SetFPGA(state) => {
                self.set_fpga(state);
                AppAction::Done
            },
            Request::SetTPwr(state) => {
                self.set_tpwr(state);
                AppAction::Done
            },
            Request::SetLED(state) => {
                self.set_led(state);
                AppAction::Done
            },
            Request::SetMCU(state) => {
                self.set_mcu(state);
                AppAction::Done
            },
            Request::SetMode(mode) => {
                self.set_mode(mode);
                AppAction::Done
            },
            Request::SPITransmit(txdata) => self.spi_transmit(txdata),
            Request::DAP1Command(report) => self.dap_command(
                EndpointKind::DAP1,
                report.as_slice(),
                available,
            ),
            Request::DAP2Command(report) => self.dap_command(
                EndpointKind::DAP2,
                report.as_slice(),
                available,
            ),
            Request::GetTPwr => AppAction::ReadTPwr,
            Request::Bootload => AppAction::Bootload(crate::bootload::bootload()),
            Request::Suspend => {
                self.suspend();
                AppAction::Done
            },
        }
    }
}

} // verus!
