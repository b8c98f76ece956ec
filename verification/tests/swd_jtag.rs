use ffp::ecp5::{BSEError, ConfigTarget, Status, ECP5IDCODE};
use ffp::jtag::{bytes_for_bits, pack_tdo, JTAG};
use ffp::sequence::SequenceBuilder;
use ffp::spi::SPI;
use ffp::spi::SPIClock;
use ffp::swd::{
    parity, APnDP, AckStep, DPRegister, Error, RnW, Transaction, Word, ACK, SWD,
};

#[test]
fn request_bytes() {
    assert_eq!(SWD::make_request(APnDP::DP, RnW::R, 0), 0xA5);
    assert_eq!(SWD::make_request(APnDP::DP, RnW::W, 0), 0x81);
    assert_eq!(SWD::make_request(APnDP::DP, RnW::R, 3), 0xBD);
    assert_eq!(SWD::make_request(APnDP::AP, RnW::R, 0), 0x87);
    assert_eq!(SWD::make_request(APnDP::AP, RnW::W, 1), 0x8B);
    assert_eq!(SWD::make_request(APnDP::DP, RnW::W, 2), 0xB1);
    assert_eq!(SWD::make_request(APnDP::AP, RnW::R, DPRegister::RDBUFF.addr()), 0x9F);
    for a in 0..4u8 {
        for (ap, rw) in [
            (APnDP::DP, RnW::R),
            (APnDP::DP, RnW::W),
            (APnDP::AP, RnW::R),
            (APnDP::AP, RnW::W),
        ] {
            let r = SWD::make_request(ap, rw, a);
            assert_eq!(r & 1, 1);
            assert_eq!(r & 0x40, 0);
            assert_eq!(r & 0x80, 0x80);
            assert_eq!(((r >> 1) & 0x1F).count_ones() % 2, 0);
        }
    }
}

#[test]
fn ack_values() {
    assert_eq!(ACK::check_ok(0b001), Ok(()));
    assert_eq!(ACK::check_ok(0b010), Err(Error::AckWait));
    assert_eq!(ACK::check_ok(0b100), Err(Error::AckFault));
    assert_eq!(ACK::check_ok(0b111), Err(Error::AckProtocol));
    assert_eq!(ACK::check_ok(0b000), Err(Error::AckUnknown(0)));
    assert_eq!(ACK::check_ok(0b011), Err(Error::AckUnknown(3)));
    assert_eq!(SWD::read_ack(0b0011), 0b001);
    assert_eq!(SWD::write_ack(0b1_0101), 0b010);
}

#[test]
fn wait_is_retried_until_retries_run_out() {
    assert_eq!(SWD::after_ack(0b001, 0), AckStep::Proceed);
    assert_eq!(SWD::after_ack(0b010, 8), AckStep::Retry(7));
    assert_eq!(SWD::after_ack(0b010, 1), AckStep::Retry(0));
    assert_eq!(SWD::after_ack(0b010, 0), AckStep::Fail(Error::AckWait));
    assert_eq!(SWD::after_ack(0b100, 8), AckStep::Fail(Error::AckFault));
    assert_eq!(SWD::after_ack(0b111, 8), AckStep::Fail(Error::AckProtocol));
    assert_eq!(SWD::after_ack(0b110, 8), AckStep::Fail(Error::AckUnknown(6)));
    let mut swd = SWD::new();
    assert_eq!(swd.wait_retries, 8);
    swd.set_wait_retries(2);
    let mut left = swd.wait_retries;
    let mut requests = 1;
    while let AckStep::Retry(n) = SWD::after_ack(0b010, left) {
        left = n;
        requests += 1;
    }
    assert_eq!(requests, 3);
}

#[test]
fn read_parity_is_checked() {
    assert_eq!(parity(0), 0);
    assert_eq!(parity(1), 1);
    assert_eq!(parity(0x2BA0_1477), 0x2BA0_1477u32.count_ones() & 1);
    assert_eq!(parity(0xFFFF_FFFF), 0);
    assert_eq!(parity(0x8000_0000), 1);
    assert_eq!(SWD::finish_read(0x2BA0_1477, 0x00), Ok(0x2BA0_1477));
    assert_eq!(SWD::finish_read(0x2BA0_1477, 0xFE), Ok(0x2BA0_1477));
    assert_eq!(SWD::finish_read(0x2BA0_1477, 0x01), Err(Error::BadParity));
    assert_eq!(SWD::finish_read(0x2BA0_1476, 0x01), Ok(0x2BA0_1476));
    assert_eq!(SWD::finish_read(0x2BA0_1476, 0x00), Err(Error::BadParity));
    assert_eq!(SWD::finish_read(0, 0xFE), Ok(0));
}

#[test]
fn data_phase_framing() {
    assert_eq!(SPI::swd_wdata_phase(0x2BA0_1477, 1), vec![0x77, 0x14, 0xA0, 0x2B, 1]);
    assert_eq!(SPI::swd_wdata_phase(0x0000_0001, 0xFE), vec![1, 0, 0, 0, 0]);
    assert_eq!(SPI::swd_rdata_phase(&[0x77, 0x14, 0xA0, 0x2B, 0x81]), (0x2BA0_1477, 0x81));
}

#[test]
fn start_sequence_resets_the_line() {
    let seq = SWD::start_sequence();
    assert_eq!(seq.len(), 18);
    assert!(seq[..8].iter().all(|w| *w == Word { bits: 8, value: 0xFF }));
    assert_eq!(seq[8], Word { bits: 16, value: 0xE79E });
    assert!(seq[9..17].iter().all(|w| *w == Word { bits: 8, value: 0xFF }));
    assert_eq!(seq[17], Word { bits: 4, value: 0 });
    assert_eq!(SWD::idle_high(), Word { bits: 4, value: 0xF });
    assert_eq!(SWD::idle_low(), Word { bits: 4, value: 0 });
}

#[test]
fn jtag_sequence_scenario() {
    let jtag = JTAG::new(true);
    let seqs = jtag.sequences(&[1, 0x88, 0x55]);
    assert_eq!(seqs.len(), 1);
    let s = &seqs[0];
    assert_eq!(s.nbits, 8);
    assert!(!s.tms);
    assert!(s.capture);
    let tdi: Vec<bool> = (0..8).map(|i| s.tdi_bit(i)).collect();
    assert_eq!(tdi, vec![true, false, true, false, true, false, true, false]);
    let sampled = [false, true, true, false, false, false, false, true];
    assert_eq!(pack_tdo(&sampled), vec![0b1000_0110]);
}

#[test]
fn jtag_sequence_framing() {
    let jtag = JTAG::new(false);
    assert!(jtag.sequences(&[]).is_empty());
    assert!(jtag.sequences(&[0, 0x88, 0x55]).is_empty());
    assert!(jtag.sequences(&[3]).is_empty());
    let seqs = jtag.sequences(&[3, 0x45, 0x1F, 0x00, 1, 2, 3, 4, 5, 6, 7, 8, 0xC9, 0xAA]);
    assert_eq!(seqs.len(), 2);
    assert_eq!((seqs[0].nbits, seqs[0].tms, seqs[0].capture), (5, true, false));
    assert_eq!(seqs[0].tdi, vec![0x1F]);
    assert_eq!((seqs[1].nbits, seqs[1].tms, seqs[1].capture), (64, false, false));
    assert_eq!(seqs[1].tdi, vec![1, 2, 3, 4, 5, 6, 7, 8]);
    let seqs = jtag.sequences(&[1, 0x09, 0xFF, 0x01, 0x88, 0x00]);
    assert_eq!(seqs.len(), 1);
    assert_eq!(seqs[0].tdi, vec![0xFF, 0x01]);
    assert!(seqs[0].tdi_bit(8));
}

#[test]
fn tdo_packing() {
    assert_eq!(bytes_for_bits(0), 0);
    assert_eq!(bytes_for_bits(1), 1);
    assert_eq!(bytes_for_bits(8), 1);
    assert_eq!(bytes_for_bits(9), 2);
    assert_eq!(bytes_for_bits(64), 8);
    assert_eq!(pack_tdo(&[]), Vec::<u8>::new());
    assert_eq!(pack_tdo(&[true]), vec![1]);
    let nine = [true, false, false, false, false, false, false, true, true];
    assert_eq!(pack_tdo(&nine), vec![0x81, 0x01]);
    assert_eq!(pack_tdo(&[true; 64]), vec![0xFF; 8]);
}

#[test]
fn ecp5_status_word() {
    let s = Status::new(0x0000_0101);
    assert!(s.transparent());
    assert!(s.done());
    assert!(!s.busy());
    assert_eq!(s.config_target(), ConfigTarget::SRAM);
    assert_eq!(Status::new(0b0010).config_target(), ConfigTarget::eFuse);
    assert_eq!(Status::new(0b0100).config_target(), ConfigTarget::Unknown);
    assert_eq!(Status::new(3 << 23).bse_error(), BSEError::CRCError);
    assert_eq!(Status::new(0).bse_error(), BSEError::NoError);
    let all = Status::new(0xFFFF_FFFF);
    assert!(all.jtag_active() && all.pwd_protection() && all.decrypt_enable());
    assert!(all.isc_enable() && all.write_enable() && all.read_enable());
    assert!(all.busy() && all.fail() && all.feature_otp() && all.decrypt_only());
    assert!(all.pwd_enable() && all.encrypt_preamble() && all.standard_preamble());
    assert!(all.spi_m_fail_1() && all.execution_error() && all.id_error());
    assert!(all.invalid_command() && all.sed_error() && all.bypass_mode());
    assert!(all.flow_through_mode());
    assert!(Status::new(1 << 31).flow_through_mode());
    assert!(!Status::new(1 << 30).flow_through_mode());
    assert_eq!(ECP5IDCODE::from_idcode(0x41111043), Some(ECP5IDCODE::LFE5U_25));
    assert_eq!(ECP5IDCODE::from_idcode(0x41111044), None);
    assert_eq!(ECP5IDCODE::LFE5UM5G_85.name(), "LFE5UM5G-85");
    assert_eq!(ECP5IDCODE::LFE5U_12.idcode(), 0x21111043);
}

#[test]
fn built_requests_are_read_back() {
    let builder = SequenceBuilder::new()
        .mode(5, 1)
        .mode(1, 0)
        .write(9, 0, &[0xA5, 0x01])
        .read(32, 0)
        .request(64, 1, None, true);
    assert_eq!(builder.num_sequences, 5);
    assert_eq!(builder.capture_length, 12);
    let bytes = builder.to_bytes();
    assert_eq!(
        bytes,
        vec![
            5, 0x45, 0xFF, 0x01, 0xFF, 0x09, 0xA5, 0x01, 0xA0, 0xFF, 0xFF, 0xFF, 0xFF, 0xC0, 0xFF,
            0xFF, 0xFF, 0xFF, 0xFF, 0xFF, 0xFF, 0xFF
        ]
    );
    let seqs = JTAG::new(true).sequences(&bytes);
    assert_eq!(seqs.len(), 5);
    assert_eq!((seqs[0].nbits, seqs[0].tms, seqs[0].capture), (5, true, false));
    assert_eq!((seqs[1].nbits, seqs[1].tms, seqs[1].capture), (1, false, false));
    assert_eq!((seqs[2].nbits, seqs[2].tms, seqs[2].capture), (9, false, false));
    assert_eq!(seqs[2].tdi, vec![0xA5, 0x01]);
    assert_eq!((seqs[3].nbits, seqs[3].tms, seqs[3].capture), (32, false, true));
    assert_eq!((seqs[4].nbits, seqs[4].tms, seqs[4].capture), (64, true, true));
    assert_eq!(seqs[4].tdi, vec![0xFF; 8]);
    assert_eq!(SequenceBuilder::new().to_bytes(), vec![0]);
}

#[test]
fn transactions() {
    let mut swd = SWD::new();
    swd.set_wait_retries(1);
    let mut t = swd.read_dp(DPRegister::DPIDR);
    assert_eq!(t, Transaction { request: 0xA5, rnw: RnW::R, data: 0, retries: 1 });
    assert_eq!(t.ack_bits(), 4);
    assert_eq!(t.on_ack(0b0100), AckStep::Retry(0));
    assert_eq!(t.retries, 0);
    assert_eq!(t.on_ack(0b0100), AckStep::Fail(Error::AckWait));
    assert_eq!(t.on_ack(0b0011), AckStep::Proceed);
    assert_eq!(t.on_ack(0b1000), AckStep::Fail(Error::AckFault));
    assert_eq!(Transaction::rdata(&[0x77, 0x14, 0xA0, 0x2B, 0x00]), Ok(0x2BA0_1477));
    assert_eq!(Transaction::rdata(&[0x77, 0x14, 0xA0, 0x2B, 0x01]), Err(Error::BadParity));

    let mut w = swd.write_ap(1, 0x0000_0007);
    assert_eq!(w.request, 0x8B);
    assert_eq!(w.ack_bits(), 5);
    assert_eq!(w.on_ack(0b1_0011), AckStep::Proceed);
    assert_eq!(w.wdata(), vec![7, 0, 0, 0, 1]);
    assert_eq!(swd.write_dp(DPRegister::SELECT, 0).request, 0xB1);
    assert_eq!(swd.read_ap(3).request, 0x9F);
    assert_eq!(swd.write_dp(DPRegister::CTRLSTAT, 3).wdata(), vec![3, 0, 0, 0, 0]);

    let mut spi = SPI::new();
    SWD::spi_enable(&mut spi);
    assert!(spi.enabled && spi.lsb_first);
    SWD::set_clock(&mut spi, SPIClock::Clk6M);
    assert_eq!(spi.clock, SPIClock::Clk6M);
    SWD::spi_disable(&mut spi);
    assert!(!spi.enabled);
    assert_eq!(
        SWD::tx_sequence(&[0xFF, 0x9E]),
        vec![Word { bits: 8, value: 0xFF }, Word { bits: 8, value: 0x9E }]
    );
}
