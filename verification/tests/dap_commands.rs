use ffp::dap::{Action, Command, Request, ResponseWriter, SwdOp, DAP};
use ffp::gpio::{OutputType, PinConfig, PinMode, Pins};
use ffp::app::PinState;
use ffp::spi::{SPIClock, SPI};
use ffp::swd::{APnDP, Error, SWD};

fn fresh() -> (DAP, Pins, SPI) {
    let mut pins = Pins::new();
    pins.setup();
    (DAP::new(SWD::new(), b"v1.2-3-gabcdef".to_vec(), 256), pins, SPI::new())
}

fn reply(action: Action) -> Vec<u8> {
    match action {
        Action::Reply(Some(v)) => v,
        _ => panic!("expected a response"),
    }
}

fn op(action: Action) -> SwdOp {
    match action {
        Action::Swd(op) => op,
        _ => panic!("expected a transaction"),
    }
}

#[test]
fn empty_report_is_not_answered() {
    let (mut dap, mut pins, mut spi) = fresh();
    assert!(matches!(dap.process_command(&[], &mut pins, &mut spi, 0), Action::Reply(None)));
}

#[test]
fn unknown_command_is_unimplemented() {
    let (mut dap, mut pins, mut spi) = fresh();
    assert_eq!(reply(dap.process_command(&[0x55, 1, 2], &mut pins, &mut spi, 0)), vec![0xFF]);
    assert_eq!(reply(dap.process_command(&[0x14, 0], &mut pins, &mut spi, 0)), vec![0xFF]);
    assert_eq!(reply(dap.process_command(&[0x7F], &mut pins, &mut spi, 0)), vec![0xFF]);
}

#[test]
fn info_max_packet_size_is_64() {
    let (mut dap, mut pins, mut spi) = fresh();
    assert_eq!(
        reply(dap.process_command(&[0x00, 0xFF], &mut pins, &mut spi, 0)),
        vec![0x00, 2, 64, 0]
    );
}

#[test]
fn info_fields() {
    let (mut dap, mut pins, mut spi) = fresh();
    for id in [0x01u8, 0x02, 0x03, 0x05, 0x06] {
        assert_eq!(reply(dap.process_command(&[0x00, id], &mut pins, &mut spi, 0)), vec![0, 0]);
    }
    let mut version = vec![0x00, 14];
    version.extend_from_slice(b"v1.2-3-gabcdef");
    assert_eq!(reply(dap.process_command(&[0x00, 0x04], &mut pins, &mut spi, 0)), version);
    assert_eq!(
        reply(dap.process_command(&[0x00, 0xF0], &mut pins, &mut spi, 0)),
        vec![0, 1, 0b0100_0101]
    );
    assert_eq!(
        reply(dap.process_command(&[0x00, 0xFD], &mut pins, &mut spi, 0)),
        vec![0, 4, 0, 1, 0, 0]
    );
    assert_eq!(reply(dap.process_command(&[0x00, 0xFE], &mut pins, &mut spi, 0)), vec![0, 1, 1]);
    assert!(matches!(
        dap.process_command(&[0x00, 0xF1], &mut pins, &mut spi, 0),
        Action::Reply(None)
    ));
    assert!(matches!(
        dap.process_command(&[0x00, 0x77], &mut pins, &mut spi, 0),
        Action::Reply(None)
    ));
}

#[test]
fn host_status_drives_led() {
    let (mut dap, mut pins, mut spi) = fresh();
    assert_eq!(reply(dap.process_command(&[0x01, 0, 1], &mut pins, &mut spi, 0)), vec![1, 0]);
    assert_eq!(pins.led.level, PinState::High);
    assert_eq!(reply(dap.process_command(&[0x01, 1, 0], &mut pins, &mut spi, 0)), vec![1, 0]);
    assert_eq!(pins.led.level, PinState::High);
    assert_eq!(reply(dap.process_command(&[0x01, 0, 0], &mut pins, &mut spi, 0)), vec![1, 0]);
    assert_eq!(pins.led.level, PinState::Low);
}

#[test]
fn connect_swd_and_default() {
    let (mut dap, mut pins, mut spi) = fresh();
    assert_eq!(reply(dap.process_command(&[0x02, 0x01], &mut pins, &mut spi, 0)), vec![0x02, 0x01]);
    assert!(dap.configured);
    assert_eq!(pins.sck.mode, PinMode::Alternate);
    assert_eq!(pins.flash_si.mode, PinMode::Alternate);
    assert_eq!(pins.flash_so.mode, PinMode::Output);
    assert_eq!(pins.flash_so.otype, OutputType::OpenDrain);
    assert_eq!(pins.flash_so.level, PinState::High);
    assert_eq!(pins.cs.mode, PinMode::Alternate);
    assert!(spi.enabled);
    assert!(spi.lsb_first);
    assert_eq!(spi.clock, SPIClock::Clk375k);

    let (mut dap, mut pins, mut spi) = fresh();
    assert_eq!(reply(dap.process_command(&[0x02, 0x00], &mut pins, &mut spi, 0)), vec![0x02, 0x01]);
    assert!(dap.configured);
}

#[test]
fn connect_jtag_fails() {
    let (mut dap, mut pins, mut spi) = fresh();
    let before = pins;
    assert_eq!(reply(dap.process_command(&[0x02, 0x02], &mut pins, &mut spi, 0)), vec![0x02, 0x00]);
    assert!(!dap.configured);
    assert_eq!(pins, before);
    assert!(!spi.enabled);
}

#[test]
fn disconnect_then_connect_restores_pins() {
    let (mut dap, mut pins, mut spi) = fresh();
    pins.high_impedance_mode();
    dap.process_command(&[0x02, 0x01], &mut pins, &mut spi, 0);
    let connected = pins;
    assert_eq!(reply(dap.process_command(&[0x03], &mut pins, &mut spi, 0)), vec![0x03, 0x00]);
    assert!(!dap.configured);
    assert!(!spi.enabled);
    assert_eq!(pins.sck.mode, PinMode::Input);
    assert_ne!(pins, connected);
    dap.process_command(&[0x02, 0x01], &mut pins, &mut spi, 0);
    assert_eq!(pins, connected);
}

#[test]
fn write_abort_needs_connection() {
    let (mut dap, mut pins, mut spi) = fresh();
    assert_eq!(
        reply(dap.process_command(&[0x08, 0, 0x1E, 0, 0, 0], &mut pins, &mut spi, 0)),
        vec![0x08, 0xFF]
    );
    dap.process_command(&[0x02, 0x01], &mut pins, &mut spi, 0);
    let write = op(dap.process_command(&[0x08, 0, 0x1E, 0, 0, 0], &mut pins, &mut spi, 0));
    assert_eq!(write, SwdOp::Write { apndp: APnDP::DP, a: 0, data: 0x1E });
    assert_eq!(reply(dap.resume_swd(Ok(0))), vec![0x08, 0x00]);
    op(dap.process_command(&[0x08, 0, 0x1E, 0, 0, 0], &mut pins, &mut spi, 0));
    assert_eq!(reply(dap.resume_swd(Err(Error::AckFault))), vec![0x08, 0xFF]);
    assert!(matches!(dap.resume_swd(Ok(0)), Action::Reply(None)));
}

#[test]
fn delay_is_48_cycles_per_microsecond() {
    let (mut dap, mut pins, mut spi) = fresh();
    match dap.process_command(&[0x09, 0x10, 0x27], &mut pins, &mut spi, 0) {
        Action::Delay { cycles, reply } => {
            assert_eq!(cycles, 480_000);
            assert_eq!(reply, vec![0x09, 0x00]);
        }
        _ => panic!("expected a delay"),
    }
}

#[test]
fn reset_target_has_no_sequence() {
    let (mut dap, mut pins, mut spi) = fresh();
    assert_eq!(reply(dap.process_command(&[0x0A], &mut pins, &mut spi, 0)), vec![0x0A, 0, 0]);
}

#[test]
fn swj_pins_sets_only_nreset() {
    let (mut dap, mut pins, mut spi) = fresh();
    match dap.process_command(&[0x10, 0x00, 0x80, 0x64, 0, 0, 0], &mut pins, &mut spi, 0) {
        Action::SwjPins { wait } => assert_eq!(wait, 100),
        _ => panic!("expected a pin read"),
    }
    assert_eq!(pins.flash_so.mode, PinMode::Output);
    assert_eq!(pins.flash_so.otype, OutputType::OpenDrain);
    assert_eq!(pins.flash_so.level, PinState::Low);
    dap.process_command(&[0x10, 0x80, 0x80, 0, 0, 0, 0], &mut pins, &mut spi, 0);
    assert_eq!(pins.flash_so.mode, PinMode::Input);
    let before = pins;
    dap.process_command(&[0x10, 0x00, 0x7F, 0, 0, 0, 0], &mut pins, &mut spi, 0);
    assert_eq!(pins, before);
}

#[test]
fn swj_pins_state_byte() {
    let levels = ffp::dap::PinLevels {
        swclk: PinState::High,
        swdio: PinState::Low,
        tdi: PinState::High,
        tdo: PinState::Low,
        nreset: PinState::High,
    };
    assert_eq!(DAP::finish_swj_pins(levels), vec![0x10, 0b1010_0101]);
    let low = ffp::dap::PinLevels {
        swclk: PinState::Low,
        swdio: PinState::Low,
        tdi: PinState::Low,
        tdo: PinState::Low,
        nreset: PinState::Low,
    };
    assert_eq!(DAP::finish_swj_pins(low), vec![0x10, 0b0010_0000]);
}

#[test]
fn swj_clock_picks_fastest_not_above() {
    let (mut dap, mut pins, mut spi) = fresh();
    let hz = 1_000_000u32.to_le_bytes();
    assert_eq!(
        reply(dap.process_command(&[0x11, hz[0], hz[1], hz[2], hz[3]], &mut pins, &mut spi, 0)),
        vec![0x11, 0x00]
    );
    assert_eq!(spi.clock, SPIClock::Clk750k);
    let hz = 100_000u32.to_le_bytes();
    assert_eq!(
        reply(dap.process_command(&[0x11, hz[0], hz[1], hz[2], hz[3]], &mut pins, &mut spi, 0)),
        vec![0x11, 0xFF]
    );
    assert_eq!(spi.clock, SPIClock::Clk750k);
}

#[test]
fn swj_sequence_zero_means_256_bits() {
    let (mut dap, mut pins, mut spi) = fresh();
    let mut report = vec![0x12, 0];
    report.extend((1..=32).map(|i| i as u8));
    match dap.process_command(&report, &mut pins, &mut spi, 0) {
        Action::Sequence { bytes, reply } => {
            assert_eq!(bytes.len(), 32);
            assert_eq!(bytes, (1..=32).map(|i| i as u8).collect::<Vec<u8>>());
            assert_eq!(reply, vec![0x12, 0x00]);
        }
        _ => panic!("expected a sequence"),
    }
}

#[test]
fn swj_sequence_51_is_56_bits() {
    let (mut dap, mut pins, mut spi) = fresh();
    let report = [0x12, 51, 0xFF, 0xFF, 0xFF, 0xFF, 0xFF, 0xFF, 0xFF, 0x12];
    match dap.process_command(&report, &mut pins, &mut spi, 0) {
        Action::Sequence { bytes, reply } => {
            assert_eq!(bytes, vec![0xFF; 7]);
            assert_eq!(reply, vec![0x12, 0x00]);
        }
        _ => panic!("expected a sequence"),
    }
}

#[test]
fn swj_sequence_whole_bytes_only() {
    let (mut dap, mut pins, mut spi) = fresh();
    assert_eq!(
        reply(dap.process_command(&[0x12, 12, 0xFF, 0x0F], &mut pins, &mut spi, 0)),
        vec![0x12, 0xFF]
    );
    match dap.process_command(&[0x12, 16, 0xAB], &mut pins, &mut spi, 0) {
        Action::Sequence { bytes, .. } => assert_eq!(bytes, vec![0xAB, 0x00]),
        _ => panic!("expected a sequence"),
    }
}

#[test]
fn swd_configure_default_only() {
    let (mut dap, mut pins, mut spi) = fresh();
    assert_eq!(reply(dap.process_command(&[0x13, 0], &mut pins, &mut spi, 0)), vec![0x13, 0]);
    assert_eq!(reply(dap.process_command(&[0x13, 1], &mut pins, &mut spi, 0)), vec![0x13, 0xFF]);
    assert_eq!(reply(dap.process_command(&[0x13, 4], &mut pins, &mut spi, 0)), vec![0x13, 0xFF]);
    assert_eq!(reply(dap.process_command(&[0x13, 8], &mut pins, &mut spi, 0)), vec![0x13, 0]);
}

#[test]
fn swo_streaming_scenario() {
    let (mut dap, mut pins, mut spi) = fresh();
    assert_eq!(reply(dap.process_command(&[0x17, 2], &mut pins, &mut spi, 0)), vec![0x17, 0]);
    assert!(dap.swo_streaming);
    assert_eq!(reply(dap.process_command(&[0x18, 1], &mut pins, &mut spi, 0)), vec![0x18, 0]);
    match dap.process_command(&[0x19, 0x00, 0xC2, 0x01, 0x00], &mut pins, &mut spi, 0) {
        Action::SwoBaudrate { target } => assert_eq!(target, 115_200),
        _ => panic!("expected a baud rate"),
    }
    assert_eq!(DAP::finish_swo_baudrate(115_384), vec![0x19, 0xB8, 0xC2, 0x01, 0x00]);
    assert!(!dap.is_swo_streaming());
    assert_eq!(reply(dap.process_command(&[0x1A, 1], &mut pins, &mut spi, 0)), vec![0x1A, 0]);
    assert!(dap.is_swo_streaming());
    assert_eq!(dap.poll_swo(vec![1, 2, 3]), Some(vec![1, 2, 3]));
    assert_eq!(dap.poll_swo(vec![]), None);
    assert_eq!(reply(dap.process_command(&[0x1A, 0], &mut pins, &mut spi, 0)), vec![0x1A, 0]);
    assert!(!dap.is_swo_streaming());
}

#[test]
fn swo_transport_and_mode_values() {
    let (mut dap, mut pins, mut spi) = fresh();
    dap.process_command(&[0x17, 2], &mut pins, &mut spi, 0);
    assert_eq!(reply(dap.process_command(&[0x17, 3], &mut pins, &mut spi, 0)), vec![0x17, 0xFF]);
    assert!(dap.swo_streaming);
    assert_eq!(reply(dap.process_command(&[0x17, 1], &mut pins, &mut spi, 0)), vec![0x17, 0]);
    assert!(!dap.swo_streaming);
    dap.process_command(&[0x17, 2], &mut pins, &mut spi, 0);
    assert_eq!(reply(dap.process_command(&[0x17, 0], &mut pins, &mut spi, 0)), vec![0x17, 0]);
    assert!(!dap.swo_streaming);
    assert_eq!(reply(dap.process_command(&[0x18, 0], &mut pins, &mut spi, 0)), vec![0x18, 0]);
    assert_eq!(reply(dap.process_command(&[0x18, 2], &mut pins, &mut spi, 0)), vec![0x18, 0xFF]);
    assert_eq!(reply(dap.process_command(&[0x1A, 2], &mut pins, &mut spi, 0)), vec![0x1A, 0xFF]);
}

#[test]
fn swo_status_and_extended_status() {
    let (mut dap, mut pins, mut spi) = fresh();
    assert_eq!(
        reply(dap.process_command(&[0x1B], &mut pins, &mut spi, 0x0102)),
        vec![0x1B, 0, 2, 1, 0, 0]
    );
    dap.process_command(&[0x1A, 1], &mut pins, &mut spi, 0);
    assert_eq!(
        reply(dap.process_command(&[0x1E, 7], &mut pins, &mut spi, 5)),
        vec![0x1E, 1, 5, 0, 0, 0, 0, 0, 0, 0, 0, 0, 0, 0]
    );
}

#[test]
fn swo_data_clamps_to_60() {
    let (mut dap, mut pins, mut spi) = fresh();
    match dap.process_command(&[0x1C, 0xFF, 0xFF], &mut pins, &mut spi, 0) {
        Action::SwoData { max } => assert_eq!(max, 60),
        _ => panic!("expected a trace read"),
    }
    match dap.process_command(&[0x1C, 60, 0], &mut pins, &mut spi, 0) {
        Action::SwoData { max } => assert_eq!(max, 60),
        _ => panic!("expected a trace read"),
    }
    match dap.process_command(&[0x1C, 61, 0], &mut pins, &mut spi, 0) {
        Action::SwoData { max } => assert_eq!(max, 60),
        _ => panic!("expected a trace read"),
    }
    match dap.process_command(&[0x1C, 7, 0], &mut pins, &mut spi, 0) {
        Action::SwoData { max } => assert_eq!(max, 7),
        _ => panic!("expected a trace read"),
    }
    let data = vec![0xA5u8; 60];
    let resp = dap.finish_swo_data(&data);
    assert_eq!(resp.len(), 64);
    assert_eq!(&resp[..4], &[0x1C, 0, 60, 0]);
    assert_eq!(&resp[4..], &data[..]);
    assert_eq!(dap.finish_swo_data(&[]), vec![0x1C, 0, 0, 0]);
}

#[test]
fn transfer_configure_sets_retries() {
    let (mut dap, mut pins, mut spi) = fresh();
    assert_eq!(dap.match_retries, 5);
    assert_eq!(dap.swd.wait_retries, 8);
    assert_eq!(
        reply(dap.process_command(&[0x04, 9, 0x64, 0x00, 0x03, 0x00], &mut pins, &mut spi, 0)),
        vec![0x04, 0x00]
    );
    assert_eq!(dap.swd.wait_retries, 100);
    assert_eq!(dap.match_retries, 3);
}

#[test]
fn transfer_abort_is_not_answered() {
    let (mut dap, mut pins, mut spi) = fresh();
    assert!(matches!(dap.process_command(&[0x07], &mut pins, &mut spi, 0), Action::Reply(None)));
}

#[test]
fn request_reader() {
    assert!(Request::from_report(&[]).is_none());
    let mut req = Request::from_report(&[0x05, 0x11, 0x22, 0x33, 0x44, 0x55, 0x66, 0x77, 0x88]).unwrap();
    assert_eq!(req.command, Command::DAP_Transfer);
    assert_eq!(req.next_u8(), 0x11);
    assert_eq!(req.next_u16(), 0x3322);
    assert_eq!(req.next_u32(), 0x7766_5544);
    assert_eq!(req.rest(), vec![0x88]);
    let mut short = Request::from_report(&[0x05, 0xAB]).unwrap();
    assert_eq!(short.next_u32(), 0xAB);
    assert_eq!(short.next_u8(), 0);
    assert_eq!(short.rest(), Vec::<u8>::new());
    assert_eq!(Request::from_report(&[0x99]).unwrap().command, Command::Unimplemented);
}

#[test]
fn response_writer() {
    let mut resp = ResponseWriter::new(Command::DAP_Transfer);
    resp.write_u8(0x11);
    resp.write_u16(0x3322);
    resp.write_u32(0x7766_5544);
    resp.write_slice(&[0x88, 0x99]);
    resp.write_ok();
    resp.write_err();
    assert_eq!(resp.read_u8_at(3), 0x33);
    resp.write_u8_at(1, 0xAA);
    resp.write_u16_at(2, 0xBEEF);
    assert_eq!(
        resp.finished(),
        vec![0x05, 0xAA, 0xEF, 0xBE, 0x44, 0x55, 0x66, 0x77, 0x88, 0x99, 0x00, 0xFF]
    );
}

#[test]
fn pins_stay_in_swd_after_connect() {
    let (mut dap, mut pins, mut spi) = fresh();
    dap.process_command(&[0x02, 0x01], &mut pins, &mut spi, 0);
    let mut expected = Pins::new();
    expected.setup();
    expected.enter(PinConfig::SWD);
    assert_eq!(pins, expected);
}
