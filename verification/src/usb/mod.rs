//! The USB device stack.

use vstd::prelude::*;
use crate::app::{PinState, Request};
use control_endpoint::ControlEndpoint;
use endpoints::{DataEndpoint, EndpointKind, SWOEndpoint};

pub mod buffers;
pub mod packets;
pub mod descriptors;
pub mod control_endpoint;
pub mod endpoints;

verus! {

/// State of one direction of an endpoint, as the peripheral's two STAT bits
/// encode it.
#[derive(Copy, Clone, PartialEq, Eq, Structural, Debug)]
pub enum Stat {
    Disabled,
    Stall,
    Nak,
    Valid,
}

impl Stat {
    /// The two-bit code of a state.
    pub open spec fn spec_bits(self) -> u32 {
        match self {
            Stat::Disabled => 0u32,
            Stat::Stall => 1u32,
            Stat::Nak => 2u32,
            Stat::Valid => 3u32,
        }
    }

    pub fn bits(self) -> (r: u32)
        ensures
            r == self.spec_bits(),
    {
        match self {
            Stat::Disabled => 0,
            Stat::Stall => 1,
            Stat::Nak => 2,
            Stat::Valid => 3,
        }
    }
}

/// The STAT bits are written by toggling: a bit written as 1 flips, a bit
/// written as 0 stays. This is the field after `write` is written over `stat`.
pub open spec fn stat_after_write(stat: u32, write: u32) -> u32 {
    (stat ^ write) & 3
}

/// The value to write to a STAT field that reads `stat` to make it DISABLED.
pub fn stat_disabled(stat: u32) -> (w: u32)
    ensures
        w == (stat & 0b10) | (stat & 0b01),
        stat_after_write(stat, w) == Stat::Disabled.spec_bits(),
{
    assert(((stat ^ ((stat & 0b10) | (stat & 0b01))) & 3) == 0) by (bit_vector);
    (stat & 0b10) | (stat & 0b01)
}

/// The value to write to a STAT field that reads `stat` to make it STALL.
pub fn stat_stall(stat: u32) -> (w: u32)
    ensures
        w == (stat & 0b10) | (!stat & 0b01),
        stat_after_write(stat, w) == Stat::Stall.spec_bits(),
{
    assert(((stat ^ ((stat & 0b10) | (!stat & 0b01))) & 3) == 1) by (bit_vector);
    (stat & 0b10) | (!stat & 0b01)
}

/// The value to write to a STAT field that reads `stat` to make it NAK.
pub fn stat_nak(stat: u32) -> (w: u32)
    ensures
        w == (!stat & 0b10) | (stat & 0b01),
        stat_after_write(stat, w) == Stat::Nak.spec_bits(),
{
    assert(((stat ^ ((!stat & 0b10) | (stat & 0b01))) & 3) == 2) by (bit_vector);
    (!stat & 0b10) | (stat & 0b01)
}

/// The value to write to a STAT field that reads `stat` to make it VALID.
pub fn stat_valid(stat: u32) -> (w: u32)
    ensures
        w == (!stat & 0b10) | (!stat & 0b01),
        stat_after_write(stat, w) == Stat::Valid.spec_bits(),
{
    assert(((stat ^ ((!stat & 0b10) | (!stat & 0b01))) & 3) == 3) by (bit_vector);
    (!stat & 0b10) | (!stat & 0b01)
}

/// What an endpoint asks of the stack once a transfer has completed.
#[derive(Clone, Debug)]
pub enum USBStackRequest {
    Reset,
    SetAddress(u16),
    SetConfiguration,
    AppRequest(Request),
    AppRequestAndDetach(Request),
}

/// The interrupt flags of the peripheral, as read at the start of an
/// interrupt.
#[derive(Copy, Clone, PartialEq, Eq, Structural, Debug)]
pub struct InterruptStatus {
    /// A transfer has completed on endpoint `ep_id`.
    pub ctr: bool,
    pub susp: bool,
    pub wkup: bool,
    pub reset: bool,
    pub ep_id: u8,
    /// The completed transfer was a transmission.
    pub ctr_tx: bool,
    /// The completed transfer was a reception.
    pub ctr_rx: bool,
    /// The packet received was a SETUP packet.
    pub setup: bool,
}

/// Offsets of an endpoint's two buffers in packet memory.
#[derive(Copy, Clone, PartialEq, Eq, Structural, Debug)]
pub struct BufferAddr {
    pub tx: u16,
    pub rx: u16,
}

/// The USB device: five endpoints, the device address, and whether the
/// device is attached to the bus and suspended.
pub struct USB {
    pub ctl_endpoint: ControlEndpoint,
    pub spi_endpoint: DataEndpoint,
    pub dap1_endpoint: DataEndpoint,
    pub dap2_endpoint: DataEndpoint,
    pub swo_endpoint: SWOEndpoint,
    pub address: u16,
    /// The device answers on the bus.
    pub enabled: bool,
    /// The pull-up on D+ is on.
    pub attached: bool,
    pub suspended: bool,
}

impl USB {
    pub open spec fn wf(&self) -> bool {
        &&& self.ctl_endpoint.wf()
        &&& self.spi_endpoint.wf()
        &&& self.dap1_endpoint.wf()
        &&& self.dap2_endpoint.wf()
        &&& self.swo_endpoint.wf()
        &&& self.spi_endpoint.kind == EndpointKind::SPI
        &&& self.dap1_endpoint.kind == EndpointKind::DAP1
        &&& self.dap2_endpoint.kind == EndpointKind::DAP2
    }

    /// The buffer-table rows point at the buffers at `addrs`, one pair of
    /// offsets for each endpoint, with room for 64 received bytes each.
    pub open spec fn table_written(&self, addrs: Seq<BufferAddr>) -> bool {
        let row = |a: BufferAddr|
            buffers::BTableRow { ADDR_TX: a.tx, COUNT_TX: 0, ADDR_RX: a.rx, COUNT_RX: 0x8400 };
        &&& self.ctl_endpoint.btable == row(addrs[0])
        &&& self.spi_endpoint.btable == row(addrs[1])
        &&& self.dap1_endpoint.btable == row(addrs[2])
        &&& self.dap2_endpoint.btable == row(addrs[3])
        &&& self.swo_endpoint.btable == row(addrs[4])
    }

    /// A detached device with the given serial number.
    pub fn new(serial: Vec<u8>) -> (r: USB)
        requires
            serial@.len() == 24,
        ensures
            r.wf(),
            !r.attached,
            !r.enabled,
            !r.suspended,
            r.address == 0,
            r.ctl_endpoint.serial@ == serial@,
    {
        USB {
            ctl_endpoint: ControlEndpoint::new(serial),
            spi_endpoint: DataEndpoint::new(EndpointKind::SPI),
            dap1_endpoint: DataEndpoint::new(EndpointKind::DAP1),
            dap2_endpoint: DataEndpoint::new(EndpointKind::DAP2),
            swo_endpoint: SWOEndpoint::new(),
            address: 0,
            enabled: false,
            attached: false,
            suspended: false,
        }
    }

    /// Brings the device up: buffer table written, endpoints reset, address 0
    /// enabled, and the pull-up on.
    pub fn setup(&mut self, addrs: &[BufferAddr])
        requires
            old(self).wf(),
            addrs@.len() == 5,
        ensures
            final(self).wf(),
            final(self).attached,
            final(self).enabled,
            final(self).address == 0,
            final(self).ctl_endpoint.stat_tx == Stat::Nak,
            final(self).ctl_endpoint.stat_rx == Stat::Valid,
            final(self).table_written(addrs@),
            final(self).ctl_endpoint.serial@ == old(self).ctl_endpoint.serial@,
            final(self).spi_endpoint.stat_rx == Stat::Disabled,
            final(self).dap1_endpoint.stat_rx == Stat::Disabled,
            final(self).dap2_endpoint.stat_rx == Stat::Disabled,
    {
        self.power_on_reset(addrs);
        self.usb_reset();
        self.attach();
    }

    /// Whether `r` is the request that a packet with the bytes `data`,
    /// received on the data endpoint with index `ep_id`, becomes.
    pub open spec fn is_received(r: Option<Request>, ep_id: u8, data: Seq<u8>) -> bool {
        match r {
            Some(Request::SPITransmit(v)) => ep_id == 1 && v@ == data,
            Some(Request::DAP1Command(v)) => ep_id == 2 && v@ == data,
            Some(Request::DAP2Command(v)) => ep_id == 3 && v@ == data,
            _ => false,
        }
    }

    /// The data endpoint with index `ep_id`, for 1, 2 and 3.
    pub open spec fn data_endpoint(&self, ep_id: u8) -> DataEndpoint {
        if ep_id == 1 {
            self.spi_endpoint
        } else if ep_id == 2 {
            self.dap1_endpoint
        } else {
            self.dap2_endpoint
        }
    }

    /// The request that the application gets for what an endpoint asked of
    /// the stack: requests for the stack itself are served here.
    pub open spec fn spec_released(ep_req: Option<USBStackRequest>) -> Option<Request> {
        match ep_req {
            Some(USBStackRequest::AppRequest(req)) => Some(req),
            Some(USBStackRequest::AppRequestAndDetach(req)) => Some(req),
            _ => None,
        }
    }

    /// Serves what an endpoint asked of the stack: a reset, a new address, the
    /// configuration, or a request for the application, with or without
    /// leaving the bus first.
    pub fn release(&mut self, ep_req: Option<USBStackRequest>) -> (r: Option<Request>)
        requires
            old(self).wf(),
        ensures
            final(self).wf(),
            r == Self::spec_released(ep_req),
            final(self).ctl_endpoint.serial@ == old(self).ctl_endpoint.serial@,
            final(self).ctl_endpoint.pending_request == old(self).ctl_endpoint.pending_request,
            final(self).suspended == old(self).suspended,
            !(ep_req matches Some(USBStackRequest::Reset)) ==> final(self).ctl_endpoint == old(
                self,
            ).ctl_endpoint,
            match ep_req {
                Some(USBStackRequest::Reset) => final(self).address == 0 && final(self).enabled
                    && final(self).attached == old(self).attached
                    && final(self).spi_endpoint.stat_rx == Stat::Disabled
                    && final(self).ctl_endpoint.stat_rx == Stat::Valid,
                Some(USBStackRequest::SetAddress(a)) => final(self).address == a
                    && final(self).attached == old(self).attached,
                Some(USBStackRequest::SetConfiguration) => final(self).address == old(
                    self,
                ).address && final(self).attached == old(self).attached
                    && final(self).spi_endpoint.stat_rx == Stat::Valid
                    && final(self).dap1_endpoint.stat_rx == Stat::Valid
                    && final(self).dap2_endpoint.stat_rx == Stat::Valid
                    && final(self).swo_endpoint.stat_tx == Stat::Nak,
                Some(USBStackRequest::AppRequest(_)) => final(self).address == old(self).address
                    && final(self).attached == old(self).attached,
                Some(USBStackRequest::AppRequestAndDetach(_)) => !final(self).attached
                    && final(self).address == old(self).address,
                None => final(self).address == old(self).address && final(self).attached == old(
                    self,
                ).attached,
            },
    {
        match ep_req {
            Some(USBStackRequest::Reset) => {
                self.usb_reset();
                None
            },
            Some(USBStackRequest::SetAddress(addr)) => {
                self.set_address(addr);
                None
            },
            Some(USBStackRequest::SetConfiguration) => {
                self.set_configuration();
                None
            },
            Some(USBStackRequest::AppRequest(req)) => Some(req),
            Some(USBStackRequest::AppRequestAndDetach(req)) => {
                self.detach();
                Some(req)
            },
            None => None,
        }
    }

    /// Handles one interrupt. A bus reset resets the endpoints; a wake-up
    /// ends suspension; a suspension is reported to the application at once;
    /// a completed transfer goes to its endpoint, and what the endpoint asks
    /// for is served or handed to the application. A request that was held
    /// back for its acknowledgement comes out here, when the transmission on
    /// the control endpoint has completed.
    pub fn interrupt(&mut self, istr: InterruptStatus) -> (r: Option<Request>)
        requires
            old(self).wf(),
        ensures
            final(self).wf(),
            final(self).ctl_endpoint.serial@ == old(self).ctl_endpoint.serial@,
            istr.susp ==> final(self).suspended && r == Some(Request::Suspend),
            !istr.susp && istr.wkup ==> !final(self).suspended,
            !istr.susp && !istr.ctr ==> r.is_none(),
            !istr.susp && istr.ctr && istr.ep_id > 4 ==> r.is_none(),
            !istr.susp && istr.reset && !istr.ctr ==> final(self).address == 0 && final(self).enabled
                && final(self).ctl_endpoint.stat_rx == Stat::Valid && final(self).spi_endpoint.stat_rx == Stat::Disabled,
            !istr.susp && !istr.reset && istr.ctr && 1 <= istr.ep_id <= 3 && !istr.ctr_rx
                ==> r.is_none(),
            !istr.susp && !istr.reset && istr.ctr && 1 <= istr.ep_id <= 3 && istr.ctr_rx && old(
                self,
            ).data_endpoint(istr.ep_id).btable.spec_rx_count() > 64 ==> r.is_none(),
            !istr.susp && !istr.reset && istr.ctr && 1 <= istr.ep_id <= 3 && istr.ctr_rx && old(
                self,
            ).data_endpoint(istr.ep_id).btable.spec_rx_count() <= 64 ==> Self::is_received(
                r,
                istr.ep_id,
                old(self).data_endpoint(istr.ep_id).received(),
            ),
            !istr.susp && istr.ctr && istr.ep_id == 4 ==> r.is_none(),
            !istr.susp && istr.ctr && istr.ep_id == 0 && istr.ctr_tx ==> {
                &&& r == Self::spec_released(old(self).ctl_endpoint.pending_request)
                &&& final(self).ctl_endpoint.pending_request.is_none()
                &&& match old(self).ctl_endpoint.pending_request {
                    Some(USBStackRequest::SetAddress(a)) => final(self).address == a,
                    Some(USBStackRequest::AppRequestAndDetach(_)) => !final(self).attached,
                    Some(USBStackRequest::Reset) => final(self).address == 0,
                    _ => true,
                }
            },
            !istr.susp && !istr.reset && istr.ctr && istr.ep_id == 0 && !istr.ctr_tx && istr.ctr_rx
                && istr.setup ==> final(self).ctl_endpoint.loaded(
                &old(self).ctl_endpoint,
                control_endpoint::spec_setup_answer(
                    packets::SetupPID::spec_from_words(old(self).ctl_endpoint.epbuf.rx@),
                    old(self).ctl_endpoint.serial@,
                ),
            ),
            !istr.susp && !istr.reset && istr.ctr && istr.ep_id == 0 && !istr.ctr_tx && istr.ctr_rx
                && istr.setup ==> r == Self::spec_released(
                match control_endpoint::spec_setup_answer(
                    packets::SetupPID::spec_from_words(old(self).ctl_endpoint.epbuf.rx@),
                    old(self).ctl_endpoint.serial@,
                ) {
                    control_endpoint::SetupAnswer::Forward(req) => Some(req),
                    _ => None,
                },
            ),
    {
        if istr.reset {
            self.usb_reset();
        }
        if istr.wkup {
            self.suspended = false;
        }
        if istr.susp {
            self.suspended = true;
            return Some(Request::Suspend);
        }
        if istr.ctr {
            let ep_req = self.ctr(istr);
            return self.release(ep_req);
        }
        None
    }

    /// Hands a completed transfer to the endpoint it completed on.
    fn ctr(&mut self, istr: InterruptStatus) -> (r: Option<USBStackRequest>)
        requires
            old(self).wf(),
        ensures
            final(self).wf(),
            final(self).ctl_endpoint.serial@ == old(self).ctl_endpoint.serial@,
            final(self).address == old(self).address,
            final(self).attached == old(self).attached,
            final(self).enabled == old(self).enabled,
            final(self).suspended == old(self).suspended,
            istr.ep_id >= 4 ==> r.is_none(),
            1 <= istr.ep_id <= 3 && !istr.ctr_rx ==> r.is_none(),
            1 <= istr.ep_id <= 3 && istr.ctr_rx ==> final(self).data_endpoint(istr.ep_id).stat_rx
                == Stat::Valid,
            1 <= istr.ep_id <= 3 && istr.ctr_rx && old(self).data_endpoint(
                istr.ep_id,
            ).btable.spec_rx_count() > 64 ==> r.is_none(),
            1 <= istr.ep_id <= 3 && istr.ctr_rx && old(self).data_endpoint(
                istr.ep_id,
            ).btable.spec_rx_count() <= 64 ==> Self::is_received(
                Self::spec_released(r),
                istr.ep_id,
                old(self).data_endpoint(istr.ep_id).received(),
            ),
            istr.ep_id == 0 && istr.ctr_tx ==> r == old(self).ctl_endpoint.pending_request
                && final(self).ctl_endpoint.pending_request.is_none() && final(self).ctl_endpoint.continued(&old(self).ctl_endpoint),
            istr.ep_id == 0 && !istr.ctr_tx && istr.ctr_rx && istr.setup ==> final(self).ctl_endpoint.loaded(
                &old(self).ctl_endpoint,
                control_endpoint::spec_setup_answer(
                    packets::SetupPID::spec_from_words(old(self).ctl_endpoint.epbuf.rx@),
                    old(self).ctl_endpoint.serial@,
                ),
            ),
            istr.ep_id == 0 && !istr.ctr_tx && istr.ctr_rx && istr.setup ==> r == match control_endpoint::spec_setup_answer(
                packets::SetupPID::spec_from_words(old(self).ctl_endpoint.epbuf.rx@),
                old(self).ctl_endpoint.serial@,
            ) {
                control_endpoint::SetupAnswer::Forward(req) => Some(req),
                _ => None,
            },
    {
        if istr.ep_id == 0 {
            self.ctl_endpoint.process_transfer(istr.ctr_tx, istr.ctr_rx, istr.setup)
        } else if istr.ep_id == 1 {
            self.spi_endpoint.process_transfer(istr.ctr_tx, istr.ctr_rx)
        } else if istr.ep_id == 2 {
            self.dap1_endpoint.process_transfer(istr.ctr_tx, istr.ctr_rx)
        } else if istr.ep_id == 3 {
            self.dap2_endpoint.process_transfer(istr.ctr_tx, istr.ctr_rx)
        } else if istr.ep_id == 4 {
            self.swo_endpoint.process_transfer(istr.ctr_tx, istr.ctr_rx)
        } else {
            None
        }
    }

    /// Sends the state of the target power rail as the data stage of the
    /// query: the level, then a zero byte.
    pub fn tpwr_reply(&mut self, tpwr: PinState)
        requires
            old(self).wf(),
        ensures
            final(self).wf(),
            final(self).ctl_endpoint.sent(&old(self).ctl_endpoint, seq![tpwr.spec_bit(), 0u8]),
    {
        let data: Vec<u8> = vec![tpwr.bit(), 0u8];
        assert(data@ =~= seq![tpwr.spec_bit(), 0u8]);
        self.ctl_endpoint.transmit_slice(data.as_slice());
    }

    /// Sends the bytes received in an SPI or JTAG exchange.
    pub fn spi_data_reply(&mut self, data: &[u8])
        requires
            old(self).wf(),
            data@.len() <= 64,
        ensures
            final(self).wf(),
            final(self).spi_endpoint.packet() == data@,
            final(self).spi_endpoint.stat_tx == Stat::Valid,
    {
        self.spi_endpoint.transmit_slice(data);
    }

    /// Lets the host send on the SPI bulk endpoint.
    pub fn spi_data_enable(&mut self)
        requires
            old(self).wf(),
        ensures
            final(self).wf(),
            final(self).spi_endpoint.stat_rx == Stat::Valid,
            final(self).dap1_endpoint.stat_rx == old(self).dap1_endpoint.stat_rx,
            final(self).dap2_endpoint.stat_rx == old(self).dap2_endpoint.stat_rx,
    {
        self.spi_endpoint.rx_valid();
    }

    /// Makes the SPI bulk endpoint refuse data.
    pub fn spi_data_disable(&mut self)
        requires
            old(self).wf(),
        ensures
            final(self).wf(),
            final(self).spi_endpoint.stat_rx == Stat::Stall,
            final(self).dap1_endpoint.stat_rx == old(self).dap1_endpoint.stat_rx,
            final(self).dap2_endpoint.stat_rx == old(self).dap2_endpoint.stat_rx,
    {
        self.spi_endpoint.rx_stall();
    }

    /// Sends a CMSIS-DAP response as a HID report.
    pub fn dap1_reply(&mut self, data: &[u8])
        requires
            old(self).wf(),
            data@.len() <= 64,
        ensures
            final(self).wf(),
            final(self).dap1_endpoint.packet() == data@,
            final(self).dap1_endpoint.stat_tx == Stat::Valid,
    {
        self.dap1_endpoint.transmit_slice(data);
    }

    /// Sends a CMSIS-DAP response on the bulk endpoint.
    pub fn dap2_reply(&mut self, data: &[u8])
        requires
            old(self).wf(),
            data@.len() <= 64,
        ensures
            final(self).wf(),
            final(self).dap2_endpoint.packet() == data@,
            final(self).dap2_endpoint.stat_tx == Stat::Valid,
    {
        self.dap2_endpoint.transmit_slice(data);
    }

    /// Whether the stream endpoint still holds a packet.
    pub fn dap2_swo_is_busy(&self) -> (r: bool)
        ensures
            r == self.swo_endpoint.tx_busy,
    {
        self.swo_endpoint.is_busy()
    }

    /// Sends up to 64 bytes of trace data on the stream endpoint.
    pub fn dap2_stream_swo(&mut self, data: &[u8])
        requires
            old(self).wf(),
            data@.len() <= 64,
        ensures
            final(self).wf(),
            final(self).swo_endpoint.packet() == data@,
            final(self).swo_endpoint.tx_busy,
    {
        self.swo_endpoint.transmit_slice(data);
    }

    /// Lets the host send CMSIS-DAP commands on both interfaces.
    pub fn dap_enable(&mut self)
        requires
            old(self).wf(),
        ensures
            final(self).wf(),
            final(self).dap1_endpoint.stat_rx == Stat::Valid,
            final(self).dap2_endpoint.stat_rx == Stat::Valid,
            final(self).spi_endpoint.stat_rx == old(self).spi_endpoint.stat_rx,
    {
        self.dap1_endpoint.rx_valid();
        self.dap2_endpoint.rx_valid();
    }

    /// Makes both CMSIS-DAP interfaces refuse commands.
    pub fn dap_disable(&mut self)
        requires
            old(self).wf(),
        ensures
            final(self).wf(),
            final(self).dap1_endpoint.stat_rx == Stat::Stall,
            final(self).dap2_endpoint.stat_rx == Stat::Stall,
            final(self).spi_endpoint.stat_rx == old(self).spi_endpoint.stat_rx,
    {
        self.dap1_endpoint.rx_stall();
        self.dap2_endpoint.rx_stall();
    }

    /// Writes the buffer table: one row for each endpoint.
    fn power_on_reset(&mut self, addrs: &[BufferAddr])
        requires
            old(self).wf(),
            addrs@.len() == 5,
        ensures
            final(self).wf(),
            !final(self).enabled,
            final(self).attached == old(self).attached,
            final(self).suspended == old(self).suspended,
            final(self).table_written(addrs@),
            final(self).ctl_endpoint.serial@ == old(self).ctl_endpoint.serial@,
    {
        self.enabled = false;
        self.ctl_endpoint.write_btable(addrs[0].tx, addrs[0].rx);
        self.spi_endpoint.write_btable(addrs[1].tx, addrs[1].rx);
        self.dap1_endpoint.write_btable(addrs[2].tx, addrs[2].rx);
        self.dap2_endpoint.write_btable(addrs[3].tx, addrs[3].rx);
        self.swo_endpoint.write_btable(addrs[4].tx, addrs[4].rx);
    }

    /// Resets the device state after a bus reset: only the control endpoint
    /// is active, and the device answers at address 0.
    fn usb_reset(&mut self)
        requires
            old(self).wf(),
        ensures
            final(self).wf(),
            final(self).address == 0,
            final(self).enabled,
            final(self).attached == old(self).attached,
            final(self).suspended == old(self).suspended,
            final(self).ctl_endpoint == (ControlEndpoint {
                stat_tx: Stat::Nak,
                stat_rx: Stat::Valid,
                ..old(self).ctl_endpoint
            }),
            final(self).spi_endpoint.stat_rx == Stat::Disabled,
            final(self).dap1_endpoint.stat_rx == Stat::Disabled,
            final(self).dap2_endpoint.stat_rx == Stat::Disabled,
            final(self).swo_endpoint.stat_tx == Stat::Disabled,
            final(self).spi_endpoint.btable == old(self).spi_endpoint.btable,
            final(self).dap1_endpoint.btable == old(self).dap1_endpoint.btable,
            final(self).dap2_endpoint.btable == old(self).dap2_endpoint.btable,
            final(self).swo_endpoint.btable == old(self).swo_endpoint.btable,
    {
        self.enabled = false;
        self.ctl_endpoint.reset_endpoint();
        self.spi_endpoint.reset_endpoint();
        self.dap1_endpoint.reset_endpoint();
        self.dap2_endpoint.reset_endpoint();
        self.swo_endpoint.reset_endpoint();
        self.address = 0;
        self.enabled = true;
    }

    /// Turns the pull-up on D+ on: the host sees the device.
    fn attach(&mut self)
        ensures
            *final(self) == (USB { attached: true, ..*old(self) }),
    {
        self.attached = true;
    }

    /// Turns the pull-up on D+ off: the host sees the device leave.
    fn detach(&mut self)
        ensures
            *final(self) == (USB { attached: false, ..*old(self) }),
    {
        self.attached = false;
    }

    fn set_address(&mut self, address: u16)
        ensures
            *final(self) == (USB { address: address, ..*old(self) }),
    {
        self.address = address;
    }

    /// Applies the configuration: every data endpoint becomes active.
    fn set_configuration(&mut self)
        requires
            old(self).wf(),
        ensures
            final(self).wf(),
            final(self).address == old(self).address,
            final(self).attached == old(self).attached,
            final(self).enabled == old(self).enabled,
            final(self).suspended == old(self).suspended,
            final(self).ctl_endpoint == old(self).ctl_endpoint,
            final(self).spi_endpoint.stat_rx == Stat::Valid,
            final(self).dap1_endpoint.stat_rx == Stat::Valid,
            final(self).dap2_endpoint.stat_rx == Stat::Valid,
            final(self).swo_endpoint.stat_tx == Stat::Nak,
    {
        self.ctl_endpoint.configure_endpoint();
        self.spi_endpoint.configure_endpoint();
        self.dap1_endpoint.configure_endpoint();
        self.dap2_endpoint.configure_endpoint();
        self.swo_endpoint.configure_endpoint();
    }
}

} // verus!
