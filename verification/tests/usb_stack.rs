use ffp::app::{Mode, PinState, Request};
use ffp::unique_id::get_hex_id;
use ffp::usb::buffers::{BTableRow, EPBuf};
use ffp::usb::control_endpoint::ControlEndpoint;
use ffp::usb::descriptors::{configuration_bytes, device_descriptor, ms_compatible_id_descriptor};
use ffp::usb::endpoints::{DataEndpoint, EndpointKind, SWOEndpoint};
use ffp::usb::packets::{
    DescriptorType, MSPropertiesOSDescriptor, MSPropertiesOSDescriptorFeature, SetupDirection,
    SetupPID, SetupRecipient, SetupType, StandardRequest, StringDescriptor, ToBytes, VendorRequest,
};
use ffp::usb::{
    stat_disabled, stat_nak, stat_stall, stat_valid, BufferAddr, InterruptStatus, Stat,
    USBStackRequest, USB,
};

fn serial() -> Vec<u8> {
    get_hex_id(&[0x01, 0x23, 0x45, 0x67, 0x89, 0xAB, 0xCD, 0xEF, 0x10, 0x32, 0x54, 0x76])
}

fn setup_words(bm: u8, req: u8, value: u16, index: u16, length: u16) -> [u16; 4] {
    [(bm as u16) | ((req as u16) << 8), value, index, length]
}

fn control_with(setup: [u16; 4]) -> ControlEndpoint {
    let mut ep = ControlEndpoint::new(serial());
    ep.reset_endpoint();
    for (i, w) in setup.iter().enumerate() {
        ep.epbuf.rx[i] = *w;
    }
    ep
}

fn tx_packet(epbuf: &EPBuf, btable: &BTableRow) -> Vec<u8> {
    let n = btable.COUNT_TX as usize;
    (0..n)
        .map(|i| {
            let w = epbuf.tx[i / 2];
            if i % 2 == 0 {
                (w & 0xff) as u8
            } else {
                (w >> 8) as u8
            }
        })
        .collect()
}

fn collect_in_transfer(ep: &mut ControlEndpoint) -> Vec<Vec<u8>> {
    let mut packets = vec![tx_packet(&ep.epbuf, &ep.btable)];
    while ep.pending_tx.is_some() {
        ep.process_transfer(true, false, false);
        packets.push(tx_packet(&ep.epbuf, &ep.btable));
    }
    packets
}

#[test]
fn hex_id_low_nibble_first() {
    assert_eq!(serial(), b"1032547698badcfe01234567".to_vec());
    assert_eq!(get_hex_id(&[0; 12]), vec![b'0'; 24]);
}

#[test]
fn stat_toggles_reach_the_state() {
    for stat in 0u32..4 {
        assert_eq!(stat ^ stat_disabled(stat), 0b00);
        assert_eq!(stat ^ stat_stall(stat), 0b01);
        assert_eq!(stat ^ stat_nak(stat), 0b10);
        assert_eq!(stat ^ stat_valid(stat), 0b11);
    }
    assert_eq!(stat_stall(0b10), 0b11);
    assert_eq!(stat_valid(0b01), 0b10);
    assert_eq!(Stat::Valid.bits(), 3);
    assert_eq!(Stat::Nak.bits(), 2);
    assert_eq!(Stat::Stall.bits(), 1);
    assert_eq!(Stat::Disabled.bits(), 0);
}

#[test]
fn epbuf_packs_bytes_into_words() {
    let mut buf = EPBuf::new();
    assert_eq!(buf.tx.len(), 32);
    buf.tx[2] = 0xFFFF;
    buf.write_tx(&[0x11, 0x22, 0x33]);
    assert_eq!(buf.tx[0], 0x2211);
    assert_eq!(buf.tx[1], 0x0033);
    assert_eq!(buf.tx[2], 0xFFFF);
    buf.write_tx(&[]);
    assert_eq!(buf.tx[0], 0x2211);
    let all: Vec<u8> = (0..64).collect();
    buf.write_tx(&all);
    assert_eq!(buf.tx[31], 0x3F3E);
}

#[test]
fn epbuf_reads_received_bytes() {
    let mut buf = EPBuf::new();
    buf.rx[0] = 0x2211;
    buf.rx[1] = 0x4433;
    let mut row = BTableRow::new();
    row.write(0x40, 0x80);
    assert_eq!(row, BTableRow { ADDR_TX: 0x40, COUNT_TX: 0, ADDR_RX: 0x80, COUNT_RX: 0x8400 });
    assert_eq!(row.rx_count(), 0);
    assert_eq!(buf.read_rx(&row), Vec::<u8>::new());
    row.COUNT_RX = 0x8400 | 3;
    assert_eq!(row.rx_count(), 3);
    assert_eq!(buf.read_rx(&row), vec![0x11, 0x22, 0x33]);
    row.tx_count(17);
    assert_eq!(row.COUNT_TX, 17);
}

#[test]
fn setup_packet_fields() {
    let mut buf = EPBuf::new();
    buf.rx[0] = 0x06_80;
    buf.rx[1] = 0x0302;
    buf.rx[2] = 0x0409;
    buf.rx[3] = 255;
    let setup = SetupPID::from_buf(&buf);
    assert_eq!(
        setup,
        SetupPID { bmRequestType: 0x80, bRequest: 6, wValue: 0x0302, wIndex: 0x0409, wLength: 255 }
    );
    assert_eq!(setup.setup_direction(), SetupDirection::DeviceToHost);
    assert_eq!(setup.setup_type(), SetupType::Standard);
    assert_eq!(setup.setup_recipient(), SetupRecipient::Device);
    let vendor = SetupPID { bmRequestType: 0x41, ..setup };
    assert_eq!(vendor.setup_direction(), SetupDirection::HostToDevice);
    assert_eq!(vendor.setup_type(), SetupType::Vendor);
    assert_eq!(vendor.setup_recipient(), SetupRecipient::Interface);
    assert_eq!(SetupPID { bmRequestType: 0x22, ..setup }.setup_type(), SetupType::Class);
    assert_eq!(SetupPID { bmRequestType: 0x62, ..setup }.setup_type(), SetupType::Reserved);
    assert_eq!(SetupPID { bmRequestType: 0x02, ..setup }.setup_recipient(), SetupRecipient::Endpoint);
    assert_eq!(SetupPID { bmRequestType: 0x03, ..setup }.setup_recipient(), SetupRecipient::Other);
    assert_eq!(SetupPID { bmRequestType: 0x1F, ..setup }.setup_recipient(), SetupRecipient::Unknown);
}

#[test]
fn request_codes() {
    assert_eq!(StandardRequest::try_from_u8(5), Some(StandardRequest::SetAddress));
    assert_eq!(StandardRequest::try_from_u8(9), Some(StandardRequest::SetConfiguration));
    assert_eq!(StandardRequest::try_from_u8(2), None);
    assert_eq!(VendorRequest::try_from_u8(b'A'), Some(VendorRequest::GetOSFeature));
    assert_eq!(VendorRequest::try_from_u8(7), Some(VendorRequest::Bootload));
    assert_eq!(VendorRequest::try_from_u8(0), None);
    assert_eq!(VendorRequest::try_from_u8(8), None);
    assert_eq!(DescriptorType::try_from_u8(0x22), Some(DescriptorType::HIDReport));
    assert_eq!(DescriptorType::HID.code(), 0x21);
    assert_eq!(Mode::try_from_u16(3), Some(Mode::JTAG));
    assert_eq!(Mode::try_from_u16(4), None);
    assert_eq!(PinState::try_from_u16(1), Some(PinState::High));
    assert_eq!(PinState::try_from_u16(2), None);
}

#[test]
fn device_descriptor_bytes() {
    assert_eq!(
        device_descriptor().to_bytes(),
        vec![18, 1, 0x00, 0x02, 0, 0, 0, 64, 0x09, 0x12, 0x50, 0xFF, 0x01, 0x00, 1, 2, 3, 1]
    );
}

#[test]
fn configuration_descriptor_bytes() {
    let bytes = configuration_bytes();
    assert_eq!(bytes.len(), 94);
    assert_eq!(&bytes[..9], &[9, 2, 94, 0, 3, 1, 0, 0x80, 50]);
    assert_eq!(&bytes[9..18], &[9, 4, 0, 0, 2, 0xFF, 0, 0, 4]);
    assert_eq!(&bytes[18..25], &[7, 5, 0x81, 2, 64, 0, 10]);
    assert_eq!(&bytes[25..32], &[7, 5, 0x01, 2, 64, 0, 10]);
    assert_eq!(&bytes[32..41], &[9, 4, 1, 0, 2, 3, 0, 0, 5]);
    assert_eq!(&bytes[41..50], &[9, 0x21, 0x11, 0x01, 0, 1, 0x22, 32, 0]);
    assert_eq!(&bytes[50..57], &[7, 5, 0x82, 3, 64, 0, 1]);
    assert_eq!(&bytes[57..64], &[7, 5, 0x02, 3, 64, 0, 1]);
    assert_eq!(&bytes[64..73], &[9, 4, 2, 0, 3, 0xFF, 0, 0, 6]);
    assert_eq!(&bytes[73..80], &[7, 5, 0x03, 2, 64, 0, 10]);
    assert_eq!(&bytes[80..87], &[7, 5, 0x83, 2, 64, 0, 10]);
    assert_eq!(&bytes[87..94], &[7, 5, 0x84, 2, 64, 0, 10]);
}

#[test]
fn string_descriptor_is_utf16() {
    let d = StringDescriptor::for_text(b"AGG");
    assert_eq!(d.to_bytes(), vec![8, 3, b'A', 0, b'G', 0, b'G', 0]);
    let langs = StringDescriptor::for_langs(&[0x0409]);
    assert_eq!(langs.to_bytes(), vec![4, 3, 0x09, 0x04]);
}

#[test]
fn ms_descriptors() {
    let compat = ms_compatible_id_descriptor().to_bytes();
    assert_eq!(compat.len(), 64);
    assert_eq!(&compat[..9], &[64, 0, 0, 0, 0x00, 0x01, 4, 0, 2]);
    assert_eq!(&compat[16..26], &[0, 0, b'W', b'I', b'N', b'U', b'S', b'B', 0, 0]);
    assert_eq!(compat[40], 2);
    assert_eq!(&compat[42..48], b"WINUSB");

    let feature = MSPropertiesOSDescriptorFeature {
        dwPropertyDataType: 1,
        bPropertyName: b"ab\0".to_vec(),
        bPropertyData: b"c\0".to_vec(),
    };
    assert_eq!(feature.len(), 24);
    let desc = MSPropertiesOSDescriptor { bcdVersion: 0x0100, wIndex: 5, wCount: 1, features: feature };
    assert_eq!(desc.len(), 34);
    let mut buf = Vec::new();
    desc.write_to_buf(&mut buf);
    assert_eq!(
        buf,
        vec![
            34, 0, 0, 0, 0x00, 0x01, 5, 0, 1, 0, 24, 0, 0, 0, 1, 0, 0, 0, 6, 0, b'a', 0, b'b', 0, 0,
            0, 4, 0, 0, 0, b'c', 0, 0, 0
        ]
    );
}

#[test]
fn short_control_in_is_one_packet() {
    let mut ep = control_with(setup_words(0x80, 6, 0x0100, 0, 64));
    assert!(ep.process_transfer(false, true, true).is_none());
    assert_eq!(ep.stat_tx, Stat::Valid);
    assert_eq!(ep.stat_rx, Stat::Valid);
    let packets = collect_in_transfer(&mut ep);
    assert_eq!(packets, vec![device_descriptor().to_bytes()]);
}

#[test]
fn descriptor_is_truncated_to_w_length() {
    let mut ep = control_with(setup_words(0x80, 6, 0x0100, 0, 8));
    ep.process_transfer(false, true, true);
    assert_eq!(tx_packet(&ep.epbuf, &ep.btable), vec![18, 1, 0x00, 0x02, 0, 0, 0, 64]);
    let mut ep = control_with(setup_words(0x80, 6, 0x0200, 0, 9));
    ep.process_transfer(false, true, true);
    assert_eq!(collect_in_transfer(&mut ep), vec![vec![9, 2, 94, 0, 3, 1, 0, 0x80, 50]]);
}

#[test]
fn long_control_in_is_staged() {
    let mut ep = control_with(setup_words(0x80, 6, 0x0200, 0, 255));
    ep.process_transfer(false, true, true);
    let packets = collect_in_transfer(&mut ep);
    let all = configuration_bytes();
    assert_eq!(packets.len(), 2);
    assert_eq!(packets[0], all[..64].to_vec());
    assert_eq!(packets[1], all[64..].to_vec());
}

#[test]
fn multiple_of_64_ends_with_empty_packet() {
    let mut ep = ControlEndpoint::new(serial());
    let data: Vec<u8> = (0..128).map(|i| i as u8).collect();
    ep.transmit_slice(&data);
    let packets = collect_in_transfer(&mut ep);
    assert_eq!(packets.len(), 3);
    assert_eq!(packets[0], data[..64].to_vec());
    assert_eq!(packets[1], data[64..].to_vec());
    assert_eq!(packets[2], Vec::<u8>::new());

    let mut ep = ControlEndpoint::new(serial());
    ep.transmit_slice(&data[..64]);
    let packets = collect_in_transfer(&mut ep);
    assert_eq!(packets, vec![data[..64].to_vec(), vec![]]);

    let mut ep = ControlEndpoint::new(serial());
    let big: Vec<u8> = (0..320).map(|i| (i % 251) as u8).collect();
    ep.transmit_slice(&big);
    let packets = collect_in_transfer(&mut ep);
    assert_eq!(packets.len(), 6);
    assert_eq!(packets.concat(), big);
    assert!(packets[5].is_empty());

    let mut ep = ControlEndpoint::new(serial());
    ep.transmit_slice(&big[..65]);
    let packets = collect_in_transfer(&mut ep);
    assert_eq!(packets.len(), 2);
    assert_eq!(packets[1], vec![big[64]]);
}

#[test]
fn string_descriptors_by_index() {
    let expect = |idx: u16, text: &[u8]| {
        let mut ep = control_with(setup_words(0x80, 6, 0x0300 | idx, 0x0409, 255));
        ep.process_transfer(false, true, true);
        let packets = collect_in_transfer(&mut ep);
        assert_eq!(packets.concat(), StringDescriptor::for_text(text).to_bytes());
    };
    expect(1, b"AGG");
    expect(2, b"FFP r1 with CMSIS-DAP Support");
    expect(3, b"1032547698badcfe01234567");
    expect(4, b"FFP SPI Interface");
    expect(5, b"FFP CMSIS-DAP v1 Interface");
    expect(0xEE, b"MSFT100A");

    let mut ep = control_with(setup_words(0x80, 6, 0x0300, 0, 255));
    ep.process_transfer(false, true, true);
    assert_eq!(tx_packet(&ep.epbuf, &ep.btable), vec![4, 3, 0x09, 0x04]);

    let mut ep = control_with(setup_words(0x80, 6, 0x0307, 0, 255));
    ep.process_transfer(false, true, true);
    assert_eq!(ep.stat_tx, Stat::Stall);
}

#[test]
fn unknown_requests_stall() {
    for setup in [
        setup_words(0x80, 6, 0x0400, 0, 64),
        setup_words(0x80, 6, 0x2201, 0, 64),
        setup_words(0x00, 1, 0, 0, 0),
        setup_words(0x21, 9, 0, 0, 0),
        setup_words(0x40, 0, 0, 0, 0),
        setup_words(0x40, 8, 0, 0, 0),
        setup_words(0x40, 1, 2, 0, 0),
        setup_words(0x40, 3, 4, 0, 0),
        setup_words(0xC0, b'A', 0, 6, 64),
    ] {
        let mut ep = control_with(setup);
        assert!(ep.process_transfer(false, true, true).is_none());
        assert_eq!(ep.stat_tx, Stat::Stall);
        assert!(ep.pending_request.is_none());
    }
}

#[test]
fn hid_report_and_status() {
    let mut ep = control_with(setup_words(0x81, 6, 0x2200, 1, 255));
    ep.process_transfer(false, true, true);
    let report = tx_packet(&ep.epbuf, &ep.btable);
    assert_eq!(report.len(), 32);
    assert_eq!(&report[..3], &[0x06, 0x00, 0xFF]);
    assert_eq!(report[31], 0xC0);
    let mut ep = control_with(setup_words(0x80, 0, 0, 0, 2));
    ep.process_transfer(false, true, true);
    assert_eq!(tx_packet(&ep.epbuf, &ep.btable), vec![0, 0]);
}

#[test]
fn os_feature_descriptors() {
    let mut ep = control_with(setup_words(0xC0, b'A', 0, 4, 255));
    ep.process_transfer(false, true, true);
    let packets = collect_in_transfer(&mut ep);
    assert_eq!(packets.len(), 2);
    assert_eq!(packets.concat(), ms_compatible_id_descriptor().to_bytes());

    let mut ep = control_with(setup_words(0xC1, b'A', 0, 5, 255));
    ep.process_transfer(false, true, true);
    let bytes = collect_in_transfer(&mut ep).concat();
    assert_eq!(bytes.len(), 142);
    assert_eq!(&bytes[..10], &[142, 0, 0, 0, 0x00, 0x01, 5, 0, 1, 0]);
    assert_eq!(&bytes[10..20], &[132, 0, 0, 0, 1, 0, 0, 0, 40, 0]);
    assert_eq!(&bytes[20..24], &[b'D', 0, b'e', 0]);
    assert_eq!(&bytes[60..64], &[78, 0, 0, 0]);
    assert_eq!(&bytes[64..68], &[b'{', 0, b'C', 0]);
    assert_eq!(&bytes[138..142], &[b'}', 0, 0, 0]);
}

#[test]
fn vendor_requests_wait_for_the_ack() {
    let mut ep = control_with(setup_words(0x40, 3, 2, 0, 0));
    assert!(ep.process_transfer(false, true, true).is_none());
    assert_eq!(ep.btable.COUNT_TX, 0);
    assert_eq!(ep.stat_tx, Stat::Valid);
    let released = ep.process_transfer(true, false, false);
    assert!(matches!(released, Some(USBStackRequest::AppRequest(Request::SetMode(Mode::FPGA)))));
    assert!(ep.process_transfer(true, false, false).is_none());

    let mut ep = control_with(setup_words(0x40, 1, 1, 0, 0));
    ep.process_transfer(false, true, true);
    assert!(matches!(
        ep.process_transfer(true, false, false),
        Some(USBStackRequest::AppRequest(Request::SetCS(PinState::High)))
    ));
    let mut ep = control_with(setup_words(0x40, 2, 0, 0, 0));
    ep.process_transfer(false, true, true);
    assert!(matches!(
        ep.process_transfer(true, false, false),
        Some(USBStackRequest::AppRequest(Request::SetFPGA(PinState::Low)))
    ));
    let mut ep = control_with(setup_words(0x40, 4, 1, 0, 0));
    ep.process_transfer(false, true, true);
    assert!(matches!(
        ep.process_transfer(true, false, false),
        Some(USBStackRequest::AppRequest(Request::SetTPwr(PinState::High)))
    ));
    let mut ep = control_with(setup_words(0x40, 6, 0, 0, 0));
    ep.process_transfer(false, true, true);
    assert!(matches!(
        ep.process_transfer(true, false, false),
        Some(USBStackRequest::AppRequest(Request::SetLED(PinState::Low)))
    ));
}

#[test]
fn get_tpwr_goes_straight_to_the_app() {
    let mut ep = control_with(setup_words(0xC0, 5, 0, 0, 2));
    let r = ep.process_transfer(false, true, true);
    assert!(matches!(r, Some(USBStackRequest::AppRequest(Request::GetTPwr))));
    assert_eq!(ep.stat_tx, Stat::Nak);
}

fn usb_up() -> USB {
    let mut usb = USB::new(serial());
    let addrs: Vec<BufferAddr> =
        (0..5).map(|i| BufferAddr { tx: 64 + 128 * i, rx: 128 + 128 * i }).collect();
    usb.setup(&addrs);
    usb
}

fn istr(ep_id: u8, ctr_tx: bool, ctr_rx: bool, setup: bool) -> InterruptStatus {
    InterruptStatus {
        ctr: true,
        susp: false,
        wkup: false,
        reset: false,
        ep_id,
        ctr_tx,
        ctr_rx,
        setup,
    }
}

fn put_setup(usb: &mut USB, setup: [u16; 4]) {
    for (i, w) in setup.iter().enumerate() {
        usb.ctl_endpoint.epbuf.rx[i] = *w;
    }
}

#[test]
fn setup_attaches_with_control_endpoint_only() {
    let usb = usb_up();
    assert!(usb.attached);
    assert!(usb.enabled);
    assert_eq!(usb.address, 0);
    assert_eq!(usb.ctl_endpoint.stat_rx, Stat::Valid);
    assert_eq!(usb.ctl_endpoint.stat_tx, Stat::Nak);
    assert_eq!(usb.spi_endpoint.stat_rx, Stat::Disabled);
    assert_eq!(usb.ctl_endpoint.btable.ADDR_TX, 64);
    assert_eq!(usb.swo_endpoint.btable.ADDR_RX, 128 + 512);
}

#[test]
fn bootload_round_trip() {
    let mut usb = usb_up();
    put_setup(&mut usb, setup_words(0x40, 7, 0, 0, 0));
    assert!(usb.interrupt(istr(0, false, true, true)).is_none());
    assert!(usb.attached);
    assert_eq!(usb.ctl_endpoint.btable.COUNT_TX, 0);
    assert_eq!(usb.ctl_endpoint.stat_tx, Stat::Valid);
    let r = usb.interrupt(istr(0, true, false, false));
    assert!(matches!(r, Some(Request::Bootload)));
    assert!(!usb.attached);
}

#[test]
fn set_address_applies_after_ack() {
    let mut usb = usb_up();
    put_setup(&mut usb, setup_words(0x00, 5, 0x2A, 0, 0));
    assert!(usb.interrupt(istr(0, false, true, true)).is_none());
    assert_eq!(usb.address, 0);
    assert!(usb.interrupt(istr(0, true, false, false)).is_none());
    assert_eq!(usb.address, 0x2A);
}

#[test]
fn set_configuration_enables_endpoints() {
    let mut usb = usb_up();
    put_setup(&mut usb, setup_words(0x00, 9, 1, 0, 0));
    usb.interrupt(istr(0, false, true, true));
    assert_eq!(usb.dap1_endpoint.stat_rx, Stat::Disabled);
    usb.interrupt(istr(0, true, false, false));
    assert_eq!(usb.spi_endpoint.stat_rx, Stat::Valid);
    assert_eq!(usb.dap1_endpoint.stat_rx, Stat::Valid);
    assert_eq!(usb.dap2_endpoint.stat_rx, Stat::Valid);
    assert_eq!(usb.swo_endpoint.stat_tx, Stat::Nak);
    assert_eq!(usb.swo_endpoint.stat_rx, Stat::Disabled);

    put_setup(&mut usb, setup_words(0x00, 9, 0, 0, 0));
    usb.address = 9;
    usb.interrupt(istr(0, false, true, true));
    usb.interrupt(istr(0, true, false, false));
    assert_eq!(usb.address, 0);
    assert_eq!(usb.dap1_endpoint.stat_rx, Stat::Disabled);
}

#[test]
fn suspend_and_wakeup() {
    let mut usb = usb_up();
    let mut flags = istr(0, false, false, false);
    flags.ctr = false;
    flags.susp = true;
    assert!(matches!(usb.interrupt(flags), Some(Request::Suspend)));
    assert!(usb.suspended);
    flags.susp = false;
    flags.wkup = true;
    assert!(usb.interrupt(flags).is_none());
    assert!(!usb.suspended);
}

#[test]
fn data_endpoints_hand_packets_to_the_app() {
    let mut usb = usb_up();
    usb.dap1_endpoint.epbuf.rx[0] = 0x0100;
    usb.dap1_endpoint.btable.COUNT_RX = 0x8400 | 2;
    match usb.interrupt(istr(2, false, true, false)) {
        Some(Request::DAP1Command(data)) => assert_eq!(data, vec![0x00, 0x01]),
        _ => panic!("expected a command"),
    }
    assert_eq!(usb.dap1_endpoint.stat_rx, Stat::Valid);
    usb.dap2_endpoint.epbuf.rx[0] = 0x0003;
    usb.dap2_endpoint.btable.COUNT_RX = 0x8400 | 1;
    match usb.interrupt(istr(3, false, true, false)) {
        Some(Request::DAP2Command(data)) => assert_eq!(data, vec![0x03]),
        _ => panic!("expected a command"),
    }
    usb.spi_endpoint.epbuf.rx[0] = 0x9F;
    usb.spi_endpoint.btable.COUNT_RX = 0x8400 | 4;
    match usb.interrupt(istr(1, false, true, false)) {
        Some(Request::SPITransmit(data)) => assert_eq!(data, vec![0x9F, 0, 0, 0]),
        _ => panic!("expected data"),
    }
    assert!(usb.interrupt(istr(1, true, false, false)).is_none());
    assert!(usb.interrupt(istr(7, true, true, false)).is_none());
    usb.spi_endpoint.btable.COUNT_RX = 0x8400 | 65;
    assert!(usb.interrupt(istr(1, false, true, false)).is_none());
}

#[test]
fn swo_endpoint_is_busy_until_fetched() {
    let mut usb = usb_up();
    assert!(!usb.dap2_swo_is_busy());
    usb.dap2_stream_swo(&[1, 2, 3]);
    assert!(usb.dap2_swo_is_busy());
    assert_eq!(tx_packet(&usb.swo_endpoint.epbuf, &usb.swo_endpoint.btable), vec![1, 2, 3]);
    assert!(usb.interrupt(istr(4, false, true, false)).is_none());
    assert!(usb.dap2_swo_is_busy());
    assert!(usb.interrupt(istr(4, true, false, false)).is_none());
    assert!(!usb.dap2_swo_is_busy());
    let mut swo = SWOEndpoint::new();
    assert!(!swo.is_busy());
    swo.transmit_slice(&[9]);
    assert!(swo.is_busy());
}

#[test]
fn replies_and_endpoint_gates() {
    let mut usb = usb_up();
    usb.tpwr_reply(PinState::High);
    assert_eq!(tx_packet(&usb.ctl_endpoint.epbuf, &usb.ctl_endpoint.btable), vec![1, 0]);
    usb.spi_data_reply(&[5, 6, 7]);
    assert_eq!(tx_packet(&usb.spi_endpoint.epbuf, &usb.spi_endpoint.btable), vec![5, 6, 7]);
    usb.dap1_reply(&[0x02, 0x01]);
    assert_eq!(tx_packet(&usb.dap1_endpoint.epbuf, &usb.dap1_endpoint.btable), vec![2, 1]);
    usb.dap2_reply(&[0x03, 0x00]);
    assert_eq!(tx_packet(&usb.dap2_endpoint.epbuf, &usb.dap2_endpoint.btable), vec![3, 0]);
    usb.spi_data_enable();
    usb.dap_disable();
    assert_eq!(usb.spi_endpoint.stat_rx, Stat::Valid);
    assert_eq!(usb.dap1_endpoint.stat_rx, Stat::Stall);
    assert_eq!(usb.dap2_endpoint.stat_rx, Stat::Stall);
    usb.spi_data_disable();
    usb.dap_enable();
    assert_eq!(usb.spi_endpoint.stat_rx, Stat::Stall);
    assert_eq!(usb.dap1_endpoint.stat_rx, Stat::Valid);
    let mut ep = DataEndpoint::new(EndpointKind::DAP2);
    ep.configure_endpoint();
    assert_eq!(ep.stat_tx, Stat::Nak);
    assert_eq!(ep.stat_rx, Stat::Valid);
}

#[test]
fn fresh_swo_endpoint_is_empty() {
    let swo = SWOEndpoint::new();
    assert_eq!(swo.btable, BTableRow { ADDR_TX: 0, COUNT_TX: 0, ADDR_RX: 0, COUNT_RX: 0 });
    assert!(swo.epbuf.tx.iter().all(|w| *w == 0));
    assert!(swo.epbuf.rx.iter().all(|w| *w == 0));
    assert_eq!(swo.epbuf.tx.len(), 32);
    assert_eq!(swo.stat_tx, Stat::Disabled);
    assert_eq!(swo.stat_rx, Stat::Disabled);
}
