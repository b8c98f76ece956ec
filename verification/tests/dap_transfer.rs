use ffp::dap::{check, Action, SwdOp, DAP};
use ffp::gpio::Pins;
use ffp::spi::SPI;
use ffp::swd::{APnDP, Error, SWD};

fn connected() -> (DAP, Pins, SPI) {
    let mut pins = Pins::new();
    pins.setup();
    let mut spi = SPI::new();
    let mut dap = DAP::new(SWD::new(), Vec::new(), 256);
    dap.process_command(&[0x02, 0x01], &mut pins, &mut spi, 0);
    (dap, pins, spi)
}

fn reply(action: Action) -> Vec<u8> {
    match action {
        Action::Reply(Some(v)) => v,
        _ => panic!("expected a response"),
    }
}

fn op(action: Action) -> SwdOp {
    match action {
        Action::Swd(op) => op,
        _ => panic!("expected a transaction"),
    }
}

#[test]
fn read_dpidr() {
    let (mut dap, mut pins, mut spi) = connected();
    let first = op(dap.process_command(&[0x05, 0, 1, 0b0000_0010], &mut pins, &mut spi, 0));
    assert_eq!(first, SwdOp::Read { apndp: APnDP::DP, a: 0 });
    assert_eq!(
        reply(dap.resume_swd(Ok(0x2BA0_1477))),
        vec![0x05, 0x01, 0x01, 0x77, 0x14, 0xA0, 0x2B]
    );
}

#[test]
fn posted_ap_read() {
    let (mut dap, mut pins, mut spi) = connected();
    let report = [0x05, 0, 2, 0b0000_0011, 0b0000_1110];
    let first = op(dap.process_command(&report, &mut pins, &mut spi, 0));
    assert_eq!(first, SwdOp::Read { apndp: APnDP::AP, a: 0 });
    let second = op(dap.resume_swd(Ok(0xDEAD_DEAD)));
    assert_eq!(second, SwdOp::Read { apndp: APnDP::DP, a: 3 });
    let third = op(dap.resume_swd(Ok(0x1234_5678)));
    assert_eq!(third, SwdOp::Read { apndp: APnDP::DP, a: 3 });
    let resp = reply(dap.resume_swd(Ok(0x1234_5678)));
    assert_eq!(resp[..7], [0x05, 2, 1, 0x78, 0x56, 0x34, 0x12]);
    assert_eq!(resp, vec![0x05, 2, 1, 0x78, 0x56, 0x34, 0x12, 0x78, 0x56, 0x34, 0x12]);
}

#[test]
fn value_match_with_retries_fails() {
    let (mut dap, mut pins, mut spi) = connected();
    dap.process_command(&[0x04, 0, 8, 0, 3, 0], &mut pins, &mut spi, 0);
    let report = [0x05, 0, 2, 0b0010_0000, 0xF0, 0, 0, 0, 0b0001_0010, 0x40, 0, 0, 0];
    let first = op(dap.process_command(&report, &mut pins, &mut spi, 0));
    assert_eq!(first, SwdOp::Read { apndp: APnDP::DP, a: 0 });
    for _ in 0..3 {
        assert_eq!(op(dap.resume_swd(Ok(0x0000_0030))), SwdOp::Read { apndp: APnDP::DP, a: 0 });
    }
    assert_eq!(reply(dap.resume_swd(Ok(0x0000_0030))), vec![0x05, 2, 0x11]);
}

#[test]
fn value_match_succeeds_on_retry() {
    let (mut dap, mut pins, mut spi) = connected();
    let report =
        [0x05, 0, 3, 0b0010_0000, 0xF0, 0, 0, 0, 0b0001_0010, 0x40, 0, 0, 0, 0b0000_0110];
    op(dap.process_command(&report, &mut pins, &mut spi, 0));
    assert_eq!(op(dap.resume_swd(Ok(0x00))), SwdOp::Read { apndp: APnDP::DP, a: 0 });
    let next = op(dap.resume_swd(Ok(0x4F)));
    assert_eq!(next, SwdOp::Read { apndp: APnDP::DP, a: 1 });
    assert_eq!(reply(dap.resume_swd(Ok(0xAABB_CCDD))), vec![0x05, 3, 1, 0xDD, 0xCC, 0xBB, 0xAA]);
}

#[test]
fn value_match_retry_error_sets_mismatch() {
    let (mut dap, mut pins, mut spi) = connected();
    let report = [0x05, 0, 1, 0b0001_0010, 0x40, 0, 0, 0];
    op(dap.process_command(&report, &mut pins, &mut spi, 0));
    op(dap.resume_swd(Ok(0)));
    assert_eq!(reply(dap.resume_swd(Err(Error::AckFault))), vec![0x05, 1, 0x14]);
}

#[test]
fn transfer_stops_on_first_error() {
    let (mut dap, mut pins, mut spi) = connected();
    let report = [0x05, 0, 3, 0b0000_0010, 0b0000_0110, 0b0000_1010];
    op(dap.process_command(&report, &mut pins, &mut spi, 0));
    op(dap.resume_swd(Ok(0x1111_1111)));
    assert_eq!(
        reply(dap.resume_swd(Err(Error::AckWait))),
        vec![0x05, 2, 2, 0x11, 0x11, 0x11, 0x11]
    );

    let (mut dap, mut pins, mut spi) = connected();
    op(dap.process_command(&report, &mut pins, &mut spi, 0));
    assert_eq!(reply(dap.resume_swd(Err(Error::AckFault))), vec![0x05, 1, 4]);

    let (mut dap, mut pins, mut spi) = connected();
    op(dap.process_command(&report, &mut pins, &mut spi, 0));
    assert_eq!(reply(dap.resume_swd(Err(Error::BadParity))), vec![0x05, 1, 0x0F]);

    let (mut dap, mut pins, mut spi) = connected();
    op(dap.process_command(&report, &mut pins, &mut spi, 0));
    assert_eq!(reply(dap.resume_swd(Err(Error::AckUnknown(3)))), vec![0x05, 1, 0x0F]);
}

#[test]
fn transfer_writes() {
    let (mut dap, mut pins, mut spi) = connected();
    let report = [0x05, 0, 2, 0b0000_1000, 0x01, 0x02, 0x03, 0x04, 0b0000_0101, 0xAA, 0xBB, 0xCC, 0xDD];
    let first = op(dap.process_command(&report, &mut pins, &mut spi, 0));
    assert_eq!(first, SwdOp::Write { apndp: APnDP::DP, a: 2, data: 0x0403_0201 });
    let second = op(dap.resume_swd(Ok(0)));
    assert_eq!(second, SwdOp::Write { apndp: APnDP::AP, a: 1, data: 0xDDCC_BBAA });
    assert_eq!(reply(dap.resume_swd(Ok(0))), vec![0x05, 2, 1]);
}

#[test]
fn transfer_of_nothing() {
    let (mut dap, mut pins, mut spi) = connected();
    assert_eq!(reply(dap.process_command(&[0x05, 0, 0], &mut pins, &mut spi, 0)), vec![0x05, 0, 0]);
    assert_eq!(
        reply(dap.process_command(&[0x05, 0, 1, 0b0010_0000, 1, 2, 3, 4], &mut pins, &mut spi, 0)),
        vec![0x05, 1, 0]
    );
}

#[test]
fn transfer_response_length_counts_reads() {
    let (mut dap, mut pins, mut spi) = connected();
    let mut report = vec![0x05, 0, 5];
    report.extend_from_slice(&[0b0000_0010; 5]);
    let mut action = dap.process_command(&report, &mut pins, &mut spi, 0);
    let mut reads = 0u32;
    let resp = loop {
        match action {
            Action::Swd(_) => {
                reads += 1;
                action = dap.resume_swd(Ok(reads));
            }
            Action::Reply(Some(v)) => break v,
            _ => panic!("unexpected action"),
        }
    };
    assert_eq!(reads, 5);
    assert_eq!(resp.len(), 1 + 2 + 4 * 5);
    assert_eq!(resp[1], 5);
    assert_eq!(resp[2], 1);
    assert_eq!(&resp[3..7], &[1, 0, 0, 0]);
    assert_eq!(&resp[19..23], &[5, 0, 0, 0]);
}

#[test]
fn transfer_stops_when_response_is_full() {
    let (mut dap, mut pins, mut spi) = connected();
    let mut report = vec![0x05, 0, 20];
    report.extend_from_slice(&[0b0000_0010; 20]);
    let mut action = dap.process_command(&report, &mut pins, &mut spi, 0);
    let resp = loop {
        match action {
            Action::Swd(_) => action = dap.resume_swd(Ok(7)),
            Action::Reply(Some(v)) => break v,
            _ => panic!("unexpected action"),
        }
    };
    assert_eq!(resp.len(), 63);
    assert_eq!(resp[1], 15);
    assert_eq!(resp[2], 1);
}

#[test]
fn block_read_dp() {
    let (mut dap, mut pins, mut spi) = connected();
    let first = op(dap.process_command(&[0x06, 0, 2, 0, 0b0000_0110], &mut pins, &mut spi, 0));
    assert_eq!(first, SwdOp::Read { apndp: APnDP::DP, a: 1 });
    assert_eq!(op(dap.resume_swd(Ok(0x0102_0304))), SwdOp::Read { apndp: APnDP::DP, a: 1 });
    assert_eq!(
        reply(dap.resume_swd(Ok(0x0506_0708))),
        vec![0x06, 2, 0, 1, 4, 3, 2, 1, 8, 7, 6, 5]
    );
}

#[test]
fn block_read_ap_is_posted() {
    let (mut dap, mut pins, mut spi) = connected();
    let first = op(dap.process_command(&[0x06, 0, 2, 0, 0b0000_0111], &mut pins, &mut spi, 0));
    assert_eq!(first, SwdOp::Read { apndp: APnDP::AP, a: 1 });
    assert_eq!(op(dap.resume_swd(Ok(0xFFFF_FFFF))), SwdOp::Read { apndp: APnDP::AP, a: 1 });
    assert_eq!(op(dap.resume_swd(Ok(0x11))), SwdOp::Read { apndp: APnDP::DP, a: 3 });
    assert_eq!(
        reply(dap.resume_swd(Ok(0x22))),
        vec![0x06, 2, 0, 1, 0x11, 0, 0, 0, 0x22, 0, 0, 0]
    );
}

#[test]
fn block_posted_read_fails() {
    let (mut dap, mut pins, mut spi) = connected();
    op(dap.process_command(&[0x06, 0, 2, 0, 0b0000_0111], &mut pins, &mut spi, 0));
    assert_eq!(reply(dap.resume_swd(Err(Error::AckFault))), vec![0x06, 1, 0, 4]);
}

#[test]
fn block_write_and_error() {
    let (mut dap, mut pins, mut spi) = connected();
    let report = [0x06, 0, 3, 0, 0b0000_0001, 1, 0, 0, 0, 2, 0, 0, 0, 3, 0, 0, 0];
    let first = op(dap.process_command(&report, &mut pins, &mut spi, 0));
    assert_eq!(first, SwdOp::Write { apndp: APnDP::AP, a: 0, data: 1 });
    assert_eq!(op(dap.resume_swd(Ok(0))), SwdOp::Write { apndp: APnDP::AP, a: 0, data: 2 });
    assert_eq!(reply(dap.resume_swd(Err(Error::AckWait))), vec![0x06, 2, 0, 2]);

    let (mut dap, mut pins, mut spi) = connected();
    op(dap.process_command(&report, &mut pins, &mut spi, 0));
    op(dap.resume_swd(Ok(0)));
    op(dap.resume_swd(Ok(0)));
    assert_eq!(reply(dap.resume_swd(Ok(0))), vec![0x06, 3, 0, 1]);
}

#[test]
fn block_of_nothing_reports_one() {
    let (mut dap, mut pins, mut spi) = connected();
    assert_eq!(
        reply(dap.process_command(&[0x06, 0, 0, 0, 0b0000_0010], &mut pins, &mut spi, 0)),
        vec![0x06, 1, 0, 0]
    );
}

#[test]
fn check_status_bytes() {
    assert_eq!(check(Ok(5)), (1, Some(5)));
    assert_eq!(check(Err(Error::AckWait)), (2, None));
    assert_eq!(check(Err(Error::AckFault)), (4, None));
    assert_eq!(check(Err(Error::AckProtocol)), (0x0F, None));
    assert_eq!(check(Err(Error::BadParity)), (0x0F, None));
    assert_eq!(check(Err(Error::AckUnknown(0))), (0x0F, None));
    assert_eq!(check(Err(Error::AckWaitTimeout)), (0x0F, None));
}
