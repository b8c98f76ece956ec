//! The data endpoints: SPI bulk, CMSIS-DAP v1 interrupt, CMSIS-DAP v2 bulk,
//! and the SWO stream.

use vstd::prelude::*;
use super::buffers::{bytes_of, BTableRow, EPBuf};
use super::{Stat, USBStackRequest};
use crate::app::Request;

verus! {

/// Which interface a data endpoint serves.
#[derive(Copy, Clone, PartialEq, Eq, Structural, Debug)]
pub enum EndpointKind {
    SPI,
    DAP1,
    DAP2,
}

/// The request that a packet received on an endpoint of kind `kind` becomes.
pub open spec fn spec_received(kind: EndpointKind, data: Vec<u8>) -> USBStackRequest {
    USBStackRequest::AppRequest(
        match kind {
            EndpointKind::SPI => Request::SPITransmit(data),
            EndpointKind::DAP1 => Request::DAP1Command(data),
            EndpointKind::DAP2 => Request::DAP2Command(data),
        },
    )
}

/// An endpoint pair that receives packets of up to 64 bytes for the
/// application and sends its replies.
pub struct DataEndpoint {
    pub kind: EndpointKind,
    pub epbuf: EPBuf,
    pub btable: BTableRow,
    pub stat_tx: Stat,
    pub stat_rx: Stat,
}

impl DataEndpoint {
    pub open spec fn wf(&self) -> bool {
        self.epbuf.wf() && self.btable.COUNT_TX <= 64
    }

    /// The packet that is loaded for transmission.
    pub open spec fn packet(&self) -> Seq<u8> {
        bytes_of(self.epbuf.tx@, self.btable.COUNT_TX as int)
    }

    /// The packet that was received.
    pub open spec fn received(&self) -> Seq<u8> {
        bytes_of(self.epbuf.rx@, self.btable.spec_rx_count() as int)
    }

    pub fn new(kind: EndpointKind) -> (r: DataEndpoint)
        ensures
            r.wf(),
            r.kind == kind,
            r.stat_tx == Stat::Disabled,
            r.stat_rx == Stat::Disabled,
    {
        DataEndpoint {
            kind,
            epbuf: EPBuf::new(),
            btable: BTableRow::new(),
            stat_tx: Stat::Disabled,
            stat_rx: Stat::Disabled,
        }
    }

    /// Points the buffer-table row at the endpoint's buffers.
    pub fn write_btable(&mut self, addr_tx: u16, addr_rx: u16)
        requires
            old(self).wf(),
        ensures
            final(self).wf(),
            final(self).kind == old(self).kind,
            final(self).stat_tx == old(self).stat_tx,
            final(self).stat_rx == old(self).stat_rx,
            final(self).btable == (BTableRow {
                ADDR_TX: addr_tx,
                COUNT_TX: 0,
                ADDR_RX: addr_rx,
                COUNT_RX: 0x8400,
            }),
    {
        self.btable.write(addr_tx, addr_rx);
    }

    /// After a bus reset the endpoint is off in both directions.
    pub fn reset_endpoint(&mut self)
        ensures
            *final(self) == (DataEndpoint {
                stat_tx: Stat::Disabled,
                stat_rx: Stat::Disabled,
                ..*old(self)
            }),
    {
        self.stat_tx = Stat::Disabled;
        self.stat_rx = Stat::Disabled;
    }

    /// Once configured the endpoint receives and has nothing to send.
    pub fn configure_endpoint(&mut self)
        ensures
            *final(self) == (DataEndpoint {
                stat_tx: Stat::Nak,
                stat_rx: Stat::Valid,
                ..*old(self)
            }),
    {
        self.stat_tx = Stat::Nak;
        self.stat_rx = Stat::Valid;
    }

    /// Handles a completed transfer. A packet that was received goes to the
    /// application and the endpoint receives again; a packet longer than the
    /// buffer is dropped.
    pub fn process_transfer(&mut self, ctr_tx: bool, ctr_rx: bool) -> (r: Option<USBStackRequest>)
        requires
            old(self).wf(),
        ensures
            final(self).wf(),
            final(self).kind == old(self).kind,
            final(self).packet() == old(self).packet(),
            final(self).stat_tx == old(self).stat_tx,
            !ctr_rx ==> r.is_none() && final(self).stat_rx == old(self).stat_rx,
            ctr_rx ==> final(self).stat_rx == Stat::Valid,
            ctr_rx && old(self).btable.spec_rx_count() > 64 ==> r.is_none(),
            ctr_rx && old(self).btable.spec_rx_count() <= 64 ==> exists|data: Vec<u8>|
                data@ == old(self).received() && r == Some(spec_received(old(self).kind, data)),
    {
        if ctr_rx {
            if self.btable.rx_count() > 64 {
                self.rx_valid();
                return None;
            }
            let data = self.epbuf.read_rx(&self.btable);
            self.rx_valid();
            let req = match self.kind {
                EndpointKind::SPI => Request::SPITransmit(data),
                EndpointKind::DAP1 => Request::DAP1Command(data),
                EndpointKind::DAP2 => Request::DAP2Command(data),
            };
            assert(USBStackRequest::AppRequest(req) == spec_received(old(self).kind, data));
            Some(USBStackRequest::AppRequest(req))
        } else {
            None
        }
    }

    /// Loads a reply of up to 64 bytes for transmission.
    pub fn transmit_slice(&mut self, data: &[u8])
        requires
            old(self).wf(),
            data@.len() <= 64,
        ensures
            final(self).wf(),
            final(self).kind == old(self).kind,
            final(self).packet() == data@,
            final(self).stat_tx == Stat::Valid,
            final(self).stat_rx == old(self).stat_rx,
            final(self).epbuf.rx@ == old(self).epbuf.rx@,
    {
        self.epbuf.write_tx(data);
        self.btable.tx_count(data.len());
        self.stat_tx = Stat::Valid;
    }

    /// Makes the endpoint accept packets from the host.
    pub fn rx_valid(&mut self)
        ensures
            *final(self) == (DataEndpoint { stat_rx: Stat::Valid, ..*old(self) }),
    {
        self.stat_rx = Stat::Valid;
    }

    /// Makes the endpoint refuse packets from the host.
    pub fn rx_stall(&mut self)
        ensures
            *final(self) == (DataEndpoint { stat_rx: Stat::Stall, ..*old(self) }),
    {
        self.stat_rx = Stat::Stall;
    }
}

/// The IN endpoint of the SWO stream.
pub struct SWOEndpoint {
    pub epbuf: EPBuf,
    pub btable: BTableRow,
    pub tx_busy: bool,
    pub stat_tx: Stat,
    pub stat_rx: Stat,
}

impl SWOEndpoint {
    pub open spec fn wf(&self) -> bool {
        self.epbuf.wf() && self.btable.COUNT_TX <= 64
    }

    /// The packet that is loaded for transmission.
    pub open spec fn packet(&self) -> Seq<u8> {
        bytes_of(self.epbuf.tx@, self.btable.COUNT_TX as int)
    }

    pub fn new() -> (r: SWOEndpoint)
        ensures
            r.wf(),
            !r.tx_busy,
            r.stat_tx == Stat::Disabled,
            r.stat_rx == Stat::Disabled,
            r.btable == (BTableRow { ADDR_TX: 0, COUNT_TX: 0, ADDR_RX: 0, COUNT_RX: 0 }),
            forall|i: int| 0 <= i < 32 ==> r.epbuf.tx@[i] == 0 && r.epbuf.rx@[i] == 0,
            r.packet() == Seq::<u8>::empty(),
    {
        let r = SWOEndpoint {
            epbuf: EPBuf::new(),
            btable: BTableRow::new(),
            tx_busy: false,
            stat_tx: Stat::Disabled,
            stat_rx: Stat::Disabled,
        };
        assert(r.packet() =~= Seq::<u8>::empty());
        r
    }

    /// Whether a packet is loaded that the host has not fetched yet.
    pub fn is_busy(&self) -> (r: bool)
        ensures
            r == self.tx_busy,
    {
        self.tx_busy
    }

    /// Points the buffer-table row at the endpoint's buffers.
    pub fn write_btable(&mut self, addr_tx: u16, addr_rx: u16)
        requires
            old(self).wf(),
        ensures
            final(self).wf(),
            final(self).tx_busy == old(self).tx_busy,
            final(self).stat_tx == old(self).stat_tx,
            final(self).stat_rx == old(self).stat_rx,
            final(self).btable == (BTableRow {
                ADDR_TX: addr_tx,
                COUNT_TX: 0,
                ADDR_RX: addr_rx,
                COUNT_RX: 0x8400,
            }),
    {
        self.btable.write(addr_tx, addr_rx);
    }

    /// After a bus reset the endpoint is off.
    pub fn reset_endpoint(&mut self)
        ensures
            *final(self) == (SWOEndpoint {
                stat_tx: Stat::Disabled,
                stat_rx: Stat::Disabled,
                ..*old(self)
            }),
    {
        self.stat_tx = Stat::Disabled;
        self.stat_rx = Stat::Disabled;
    }

    /// Once configured the endpoint has nothing to send and never receives.
    pub fn configure_endpoint(&mut self)
        ensures
            *final(self) == (SWOEndpoint {
                stat_tx: Stat::Nak,
                stat_rx: Stat::Disabled,
                ..*old(self)
            }),
    {
        self.stat_tx = Stat::Nak;
        self.stat_rx = Stat::Disabled;
    }

    /// Handles a completed transfer: once the host has fetched the packet the
    /// endpoint is free for the next one.
    pub fn process_transfer(&mut self, ctr_tx: bool, ctr_rx: bool) -> (r: Option<USBStackRequest>)
        ensures
            r.is_none(),
            *final(self) == (SWOEndpoint {
                tx_busy: if ctr_tx { false } else { old(self).tx_busy },
                ..*old(self)
            }),
    {
        if ctr_tx {
            self.tx_busy = false;
        }
        None
    }

    /// Loads up to 64 bytes of trace data and marks the endpoint busy.
    pub fn transmit_slice(&mut self, data: &[u8])
        requires
            old(self).wf(),
            data@.len() <= 64,
        ensures
            final(self).wf(),
            final(self).packet() == data@,
            final(self).tx_busy,
            final(self).stat_tx == Stat::Valid,
            final(self).stat_rx == old(self).stat_rx,
    {
        self.epbuf.write_tx(data);
        self.btable.tx_count(data.len());
        self.stat_tx = Stat::Valid;
        self.tx_busy = true;
    }

    /// The stream endpoint receives nothing.
    pub fn rx_valid(&mut self)
        ensures
            *final(self) == *old(self),
    {
    }

    /// The stream endpoint never stalls.
    pub fn rx_stall(&mut self)
        ensures
            *final(self) == *old(self),
    {
    }
}

} // verus!
