use ffp::app::{App, AppAction, Mode, PinState, PollStep, Request};
use ffp::bootload::{bootload, check, Boot, FLAG_VALUE};
use ffp::dap::DAP;
use ffp::flash::{Flash, FlashStep, OPT_USER_VALUE};
use ffp::gpio::{
    MemoisedMode, OutputType, Pin, PinConfig, PinMode, Pins, Port, Pull, Speed, GPIO,
};
use ffp::jtag::JTAG;
use ffp::spi::{SPIClock, SPI};
use ffp::swd::SWD;
use ffp::unique_id::get_hex_id;
use ffp::usb::endpoints::EndpointKind;
use ffp::usb::{BufferAddr, Stat, USB};

fn pins() -> Pins {
    let mut pins = Pins::new();
    pins.setup();
    pins
}

fn app() -> App {
    let usb = USB::new(get_hex_id(&[0u8; 12]));
    let dap = DAP::new(SWD::new(), b"test".to_vec(), 256);
    let mut app = App::new(Pins::new(), SPI::new(), JTAG::new(true), usb, dap);
    let addrs: Vec<BufferAddr> =
        (0..5).map(|i| BufferAddr { tx: 64 + 128 * i, rx: 128 + 128 * i }).collect();
    app.setup(&addrs);
    app
}

#[test]
fn board_pin_assignment() {
    let p = Pins::new();
    assert_eq!((p.led.port, p.led.n), (Port::A, 2));
    assert_eq!((p.cs.port, p.cs.n), (Port::A, 3));
    assert_eq!((p.fpga_rst.port, p.fpga_rst.n), (Port::A, 4));
    assert_eq!((p.sck.port, p.sck.n), (Port::A, 5));
    assert_eq!((p.flash_so.port, p.flash_so.n), (Port::A, 6));
    assert_eq!((p.flash_si.port, p.flash_si.n), (Port::A, 7));
    assert_eq!((p.fpga_so.port, p.fpga_so.n), (Port::B, 4));
    assert_eq!((p.fpga_si.port, p.fpga_si.n), (Port::B, 5));
    assert_eq!((p.tpwr_det.port, p.tpwr_det.n), (Port::B, 6));
    assert_eq!((p.tpwr_en.port, p.tpwr_en.n), (Port::B, 7));
}

#[test]
fn setup_presets_nreset_high() {
    let p = pins();
    assert_eq!(p.flash_so.level, PinState::High);
    assert_eq!(p.flash_so.mode, PinMode::Input);
    assert_eq!(p.led.mode, PinMode::Output);
    assert_eq!(p.led.level, PinState::Low);
    assert_eq!(p.tpwr_en.mode, PinMode::Output);
    assert_eq!(p.tpwr_en.level, PinState::Low);
    assert_eq!(p.cs.otype, OutputType::OpenDrain);
    assert_eq!(p.cs.pull, Pull::Up);
    assert_eq!(p.cs.af, 1);
    assert_eq!(p.cs.ospeed, Speed::High);
    assert_eq!(p.sck.ospeed, Speed::VeryHigh);
    assert_eq!(p.sck.af, 0);
    assert_eq!(p.fpga_rst.level, PinState::High);
}

#[test]
fn role_table_of_each_mode() {
    let mut p = pins();
    p.high_impedance_mode();
    for pin in [p.sck, p.flash_si, p.flash_so, p.cs, p.fpga_so, p.fpga_si] {
        assert_eq!(pin.mode, PinMode::Input);
    }
    assert_eq!(p.fpga_so.level, PinState::High);
    assert_eq!((p.fpga_rst.mode, p.fpga_rst.otype), (PinMode::Output, OutputType::OpenDrain));

    p.flash_mode();
    assert_eq!(p.sck.mode, PinMode::Alternate);
    assert_eq!(p.flash_si.mode, PinMode::Alternate);
    assert_eq!((p.flash_so.mode, p.flash_so.otype), (PinMode::Alternate, OutputType::PushPull));
    assert_eq!((p.cs.mode, p.cs.otype), (PinMode::Output, OutputType::OpenDrain));
    assert_eq!(p.fpga_so.mode, PinMode::Input);
    assert_eq!(p.fpga_si.mode, PinMode::Input);
    assert_eq!((p.fpga_rst.mode, p.fpga_rst.otype), (PinMode::Output, OutputType::OpenDrain));

    p.fpga_mode();
    assert_eq!(p.sck.mode, PinMode::Alternate);
    assert_eq!(p.flash_si.mode, PinMode::Input);
    assert_eq!(p.flash_so.mode, PinMode::Input);
    assert_eq!(p.cs.mode, PinMode::Output);
    assert_eq!(p.fpga_so.mode, PinMode::Alternate);
    assert_eq!(p.fpga_si.mode, PinMode::Alternate);
    assert_eq!((p.fpga_rst.mode, p.fpga_rst.otype), (PinMode::Output, OutputType::OpenDrain));

    p.swd_mode();
    assert_eq!((p.sck.mode, p.sck.pull), (PinMode::Alternate, Pull::Up));
    assert_eq!(p.flash_si.mode, PinMode::Alternate);
    assert_eq!((p.flash_so.mode, p.flash_so.otype), (PinMode::Output, OutputType::OpenDrain));
    assert_eq!(p.cs.mode, PinMode::Alternate);
    assert_eq!(p.fpga_so.mode, PinMode::Alternate);
    assert_eq!(p.fpga_si.mode, PinMode::Input);
    assert_eq!(p.fpga_rst.mode, PinMode::Input);

    p.jtag_mode();
    assert_eq!(p.sck.mode, PinMode::Output);
    assert_eq!(p.flash_si.mode, PinMode::Output);
    assert_eq!((p.flash_so.mode, p.flash_so.otype), (PinMode::Output, OutputType::OpenDrain));
    assert_eq!(p.cs.mode, PinMode::Input);
    assert_eq!(p.fpga_so.mode, PinMode::Input);
    assert_eq!(p.fpga_si.mode, PinMode::Input);
    assert_eq!((p.fpga_rst.mode, p.fpga_rst.otype), (PinMode::Output, OutputType::PushPull));
    assert_eq!(p.flash_so.level, PinState::High);
}

#[test]
fn transitions_are_idempotent() {
    for c in [
        PinConfig::HighImpedance,
        PinConfig::Flash,
        PinConfig::FPGA,
        PinConfig::SWD,
        PinConfig::JTAG,
    ] {
        let mut p = pins();
        p.jtag_mode();
        p.enter(c);
        let once = p;
        p.enter(c);
        assert_eq!(p, once);
    }
}

#[test]
fn swd_hot_path_helpers() {
    let mut p = pins();
    p.swd_mode();
    p.swd_rx();
    assert_eq!(p.flash_si.mode, PinMode::Input);
    p.swd_tx();
    assert_eq!(p.flash_si.mode, PinMode::Alternate);
    p.swd_clk_direct();
    assert_eq!(p.sck.mode, PinMode::Output);
    p.swd_clk_spi();
    assert_eq!(p.sck.mode, PinMode::Alternate);
}

#[test]
fn memoised_mode_register_arithmetic() {
    let m = GPIO::memoise_mode(7, PinMode::Alternate);
    assert_eq!(m, MemoisedMode { mask: !(0b11 << 14), value: 0b10 << 14 });
    assert_eq!(m.apply(0xFFFF_FFFF), 0xFFFF_BFFF);
    assert_eq!(m.apply(0), 0x0000_8000);
    assert_eq!(m.mode_for(7), PinMode::Alternate);
    assert_eq!(GPIO::set_mode(0xFFFF_FFFF, 5, PinMode::Input), 0xFFFF_F3FF);
    assert_eq!(GPIO::set_mode(0, 5, PinMode::Output), 0x0000_0400);
    assert_eq!(GPIO::set_mode(0, 15, PinMode::Analog), 0xC000_0000);
    let pin = Pin::new(Port::A, 5);
    assert_eq!(pin.memoise_mode_output(), MemoisedMode { mask: !(0b11 << 10), value: 1 << 10 });
    assert_eq!(pin.memoise_mode_input().value, 0);
    assert_eq!(pin.memoise_mode_analog().value, 3 << 10);
    assert_eq!(PinMode::from_bits(6), PinMode::Alternate);
}

#[test]
fn spi_clock_from_max() {
    assert_eq!(SPIClock::from_max(u32::MAX), Some(SPIClock::Clk24M));
    assert_eq!(SPIClock::from_max(24_000_000), Some(SPIClock::Clk24M));
    assert_eq!(SPIClock::from_max(23_999_999), Some(SPIClock::Clk12M));
    assert_eq!(SPIClock::from_max(4_000_000), Some(SPIClock::Clk3M));
    assert_eq!(SPIClock::from_max(187_500), Some(SPIClock::Clk187k5));
    assert_eq!(SPIClock::from_max(187_499), None);
    assert_eq!(SPIClock::from_max(0), None);
    assert_eq!(SPIClock::Clk1M5.code(), 4);
    assert_eq!(SPIClock::Clk1M5.hz(), 1_500_000);
}

#[test]
fn spi_profiles() {
    let mut spi = SPI::new();
    spi.setup_swd();
    assert_eq!(
        spi,
        SPI { word_size: 8, lsb_first: true, clock: SPIClock::Clk375k, enabled: true, dma: false }
    );
    spi.set_clock(SPIClock::Clk3M);
    assert_eq!(spi.clock, SPIClock::Clk3M);
    spi.disable();
    assert!(!spi.enabled);
    spi.setup_spi();
    assert_eq!(
        spi,
        SPI { word_size: 8, lsb_first: false, clock: SPIClock::Clk12M, enabled: false, dma: true }
    );
}

#[test]
fn bootload_latch() {
    assert_eq!(FLAG_VALUE, 0xB00110AD);
    assert_eq!(bootload(), 0xB00110AD);
    assert_eq!(check(0xB00110AD), (0, Boot::Rom));
    assert_eq!(check(0), (0, Boot::Normal));
    assert_eq!(check(0xB00110AC), (0xB00110AC, Boot::Normal));
    assert_eq!(check(check(bootload()).0), (0, Boot::Normal));
}

#[test]
fn option_bytes_are_fixed_once() {
    assert_eq!(Flash::read_option_byte(0x1234_7F56), 0x7F);
    assert!(Flash::setup(0x0000_7F00).is_empty());
    let steps = Flash::setup(0x0000_FF00);
    assert_eq!(
        steps,
        vec![
            FlashStep::UnlockFlash,
            FlashStep::UnlockOpt,
            FlashStep::EraseOpt,
            FlashStep::ProgramRdp(0xAA),
            FlashStep::ProgramUser(0x7F),
            FlashStep::LockOpt,
            FlashStep::LockFlash,
            FlashStep::ReloadOpt,
        ]
    );
    let after = (0x0000_FF00u32 & !0xFF00) | ((OPT_USER_VALUE as u32) << 8);
    assert!(Flash::setup(after).is_empty());
}

#[test]
fn app_starts_in_high_impedance() {
    let app = app();
    assert_eq!(app.mode, Mode::HighImpedance);
    assert!(app.usb.attached);
    assert_eq!(app.pins, pins());
}

#[test]
fn set_mode_switches_everything() {
    let mut app = app();
    assert!(matches!(app.process_request(Request::SetMode(Mode::Flash), 0), AppAction::Done));
    assert_eq!(app.mode, Mode::Flash);
    assert_eq!(app.pins.flash_so.mode, PinMode::Alternate);
    assert_eq!(app.usb.spi_endpoint.stat_rx, Stat::Valid);
    assert_eq!(app.usb.dap1_endpoint.stat_rx, Stat::Stall);
    assert_eq!(app.usb.dap2_endpoint.stat_rx, Stat::Stall);
    assert_eq!(app.spi, SPI { word_size: 8, lsb_first: false, clock: SPIClock::Clk12M, enabled: false, dma: true });

    app.process_request(Request::SetMode(Mode::JTAG), 0);
    assert_eq!(app.pins.sck.mode, PinMode::Output);
    assert_eq!(app.usb.spi_endpoint.stat_rx, Stat::Valid);
    assert!(!app.spi.enabled);

    app.process_request(Request::SetMode(Mode::FPGA), 0);
    assert_eq!(app.pins.fpga_si.mode, PinMode::Alternate);

    app.process_request(Request::SetMode(Mode::HighImpedance), 0);
    assert_eq!(app.usb.spi_endpoint.stat_rx, Stat::Stall);
    assert_eq!(app.usb.dap1_endpoint.stat_rx, Stat::Valid);
    assert_eq!(app.usb.dap2_endpoint.stat_rx, Stat::Valid);
    assert_eq!(app.pins.sck.mode, PinMode::Input);
}

#[test]
fn set_mode_twice_is_set_mode_once() {
    for mode in [Mode::HighImpedance, Mode::Flash, Mode::FPGA, Mode::JTAG] {
        let mut app = app();
        app.process_request(Request::SetMode(Mode::JTAG), 0);
        app.process_request(Request::SetMode(mode), 0);
        let (pins, spi, m) = (app.pins, app.spi, app.mode);
        let rx = (
            app.usb.spi_endpoint.stat_rx,
            app.usb.dap1_endpoint.stat_rx,
            app.usb.dap2_endpoint.stat_rx,
        );
        app.process_request(Request::SetMode(mode), 0);
        assert_eq!((app.pins, app.spi, app.mode), (pins, spi, m));
        assert_eq!(
            (
                app.usb.spi_endpoint.stat_rx,
                app.usb.dap1_endpoint.stat_rx,
                app.usb.dap2_endpoint.stat_rx
            ),
            rx
        );
    }
}

#[test]
fn pin_requests_set_latches() {
    let mut app = app();
    app.process_request(Request::SetCS(PinState::Low), 0);
    assert_eq!(app.pins.cs.level, PinState::Low);
    app.process_request(Request::SetFPGA(PinState::Low), 0);
    assert_eq!(app.pins.fpga_rst.level, PinState::Low);
    app.process_request(Request::SetTPwr(PinState::High), 0);
    assert_eq!(app.pins.tpwr_en.level, PinState::High);
    app.process_request(Request::SetLED(PinState::High), 0);
    assert_eq!(app.pins.led.level, PinState::High);
    app.process_request(Request::SetMCU(PinState::Low), 0);
    assert_eq!(app.pins.flash_so.level, PinState::Low);
    assert!(matches!(app.process_request(Request::Suspend, 0), AppAction::Done));
    assert_eq!(app.pins.led.level, PinState::Low);
    assert_eq!(app.pins.tpwr_en.level, PinState::Low);
    assert_eq!(app.pins.sck.mode, PinMode::Input);
}

#[test]
fn spi_data_by_mode() {
    let mut app = app();
    assert!(matches!(
        app.process_request(Request::SPITransmit(vec![0x9F, 0, 0]), 0),
        AppAction::Done
    ));
    app.process_request(Request::SetMode(Mode::Flash), 0);
    match app.process_request(Request::SPITransmit(vec![0x9F, 0, 0]), 0) {
        AppAction::SpiExchange(tx) => assert_eq!(tx, vec![0x9F, 0, 0]),
        _ => panic!("expected an exchange"),
    }
    app.spi_reply(&[0xFF, 0xEF, 0x40]);
    assert_eq!(app.usb.spi_endpoint.btable.COUNT_TX, 3);
    assert_eq!(app.usb.spi_endpoint.epbuf.tx[0], 0xEFFF);
    app.process_request(Request::SetMode(Mode::JTAG), 0);
    match app.process_request(Request::SPITransmit(vec![1, 0x88, 0x55]), 0) {
        AppAction::JtagSequences(seqs) => {
            assert_eq!(seqs.len(), 1);
            assert_eq!(seqs[0].nbits, 8);
            assert!(seqs[0].capture);
            assert!(!seqs[0].tms);
            assert_eq!(seqs[0].tdi, vec![0x55]);
        }
        _ => panic!("expected sequences"),
    }
}

#[test]
fn bootload_and_tpwr_requests() {
    let mut app = app();
    assert!(matches!(app.process_request(Request::Bootload, 0), AppAction::Bootload(0xB00110AD)));
    assert!(matches!(app.process_request(Request::GetTPwr, 0), AppAction::ReadTPwr));
    app.tpwr_reply(PinState::High);
    assert_eq!(app.usb.ctl_endpoint.btable.COUNT_TX, 2);
    assert_eq!(app.usb.ctl_endpoint.epbuf.tx[0], 0x0001);
}

#[test]
fn dap_commands_reply_on_their_endpoint() {
    let mut app = app();
    assert!(matches!(
        app.process_request(Request::DAP1Command(vec![0x02, 0x01]), 0),
        AppAction::Done
    ));
    assert_eq!(app.usb.dap1_endpoint.btable.COUNT_TX, 2);
    assert_eq!(app.usb.dap1_endpoint.epbuf.tx[0], 0x0102);
    assert_eq!(app.pins.sck.mode, PinMode::Alternate);
    match app.process_request(Request::DAP2Command(vec![0x05, 0, 1, 0x02]), 0) {
        AppAction::Dap(EndpointKind::DAP2, _) => {}
        _ => panic!("expected a transaction"),
    }
    assert!(matches!(app.dap_resume(EndpointKind::DAP2, Ok(0x2BA0_1477)), AppAction::Done));
    assert_eq!(app.usb.dap2_endpoint.btable.COUNT_TX, 7);
    assert_eq!(app.usb.dap2_endpoint.epbuf.tx[0], 0x0105);
    assert_eq!(app.usb.dap2_endpoint.epbuf.tx[3], 0x2B);
    assert!(matches!(app.process_request(Request::DAP1Command(vec![]), 0), AppAction::Done));
}

#[test]
fn poll_order() {
    let mut app = app();
    assert_eq!(app.poll(true), PollStep::Interrupt);
    assert_eq!(app.poll(false), PollStep::Sleep);
    app.process_request(Request::DAP2Command(vec![0x17, 2]), 0);
    assert_eq!(app.poll(false), PollStep::Sleep);
    app.process_request(Request::DAP2Command(vec![0x1A, 1]), 0);
    assert_eq!(app.poll(false), PollStep::StreamSwo);
    assert_eq!(app.poll(true), PollStep::Interrupt);
    app.usb.dap2_stream_swo(&[1, 2, 3]);
    assert_eq!(app.poll(false), PollStep::Sleep);
}

#[test]
fn pin_attribute_registers() {
    assert_eq!(GPIO::set_otype(0, 6, OutputType::OpenDrain), 1 << 6);
    assert_eq!(GPIO::set_otype(0xFFFF, 6, OutputType::PushPull), 0xFFBF);
    assert_eq!(GPIO::set_ospeed(0, 5, Speed::VeryHigh), 0b11 << 10);
    assert_eq!(GPIO::set_ospeed(0, 3, Speed::High), 0b10 << 6);
    assert_eq!(GPIO::set_ospeed(0xFFFF_FFFF, 2, Speed::Low), 0xFFFF_FFCF);
    assert_eq!(GPIO::set_ospeed(0, 0, Speed::Medium), 1);
    assert_eq!(GPIO::set_pull(0, 5, Pull::Up), 1 << 10);
    assert_eq!(GPIO::set_pull(0, 15, Pull::Down), 0x8000_0000);
    assert_eq!(GPIO::set_pull(0xFFFF_FFFF, 0, Pull::Floating), 0xFFFF_FFFC);
    assert_eq!(GPIO::set_af(0, 3, 1), 1 << 12);
    assert_eq!(GPIO::set_af(0xFFFF_FFFF, 7, 0), 0x0FFF_FFFF);
    assert_eq!(GPIO::set_af(0, 0, 15), 0xF);
}

#[test]
fn resume_with_nothing_waiting_changes_nothing() {
    let mut app = app();
    assert!(matches!(app.dap_resume(EndpointKind::DAP1, Ok(1)), AppAction::Done));
    assert_eq!(app.usb.dap1_endpoint.btable.COUNT_TX, 0);
    assert_eq!(app.usb.dap1_endpoint.stat_tx, Stat::Disabled);
    app.process_request(Request::DAP1Command(vec![0x02, 0x01]), 0);
    match app.process_request(Request::DAP1Command(vec![0x05, 0, 2, 0x02, 0x06]), 0) {
        AppAction::Dap(EndpointKind::DAP1, _) => {}
        _ => panic!("expected a transaction"),
    }
    match app.dap_resume(EndpointKind::DAP1, Ok(0x11)) {
        AppAction::Dap(EndpointKind::DAP1, ffp::dap::Action::Swd(op)) => {
            assert_eq!(op, ffp::dap::SwdOp::Read { apndp: ffp::swd::APnDP::DP, a: 1 })
        }
        _ => panic!("expected the next transaction"),
    }
    assert!(matches!(
        app.dap_resume(EndpointKind::DAP1, Err(ffp::swd::Error::AckFault)),
        AppAction::Done
    ));
    assert_eq!(app.usb.dap1_endpoint.btable.COUNT_TX, 7);
    assert_eq!(app.usb.dap1_endpoint.epbuf.tx[0], 0x0205);
    assert_eq!(app.usb.dap1_endpoint.epbuf.tx[1], 0x1104);
}
