//! The control endpoint: standard and vendor requests, and control IN
//! transfers staged over several packets.

use vstd::prelude::*;
use vstd::slice::slice_subrange;
use super::buffers::{bytes_of, BTableRow, EPBuf};
use super::descriptors::{
    configuration_bytes, dap1_hid_report, device_descriptor, if2_ms_properties_os_descriptor,
    ms_compatible_id_descriptor, spec_configuration_bytes, spec_dap1_hid_report,
    spec_device_descriptor, spec_ms_compatible_id_bytes, spec_string_guid_data,
    spec_string_guid_name, spec_string_if_dap1, spec_string_if_spi, spec_string_mfn,
    spec_string_mos, spec_string_prd, string_if_dap1, string_if_spi, string_mfn, string_mos,
    string_prd, STRING_LANG, STRING_MOS_INDEX,
};
use super::packets::{
    DescriptorType, MSPropertiesOSDescriptor, MSPropertiesOSDescriptorFeature,
    OSFeatureDescriptorType, SetupPID, SetupType, StandardRequest, StringDescriptor, ToBytes,
    VendorRequest,
};
use super::{Stat, USBStackRequest};
use crate::app::{Mode, PinState, Request};

verus! {

/// Largest packet of the control endpoint.
pub const MAX_PACKET: usize = 64;

/// Largest payload of one control IN transfer.
pub const MAX_TRANSFER: usize = 320;

/// The packets in which `data` goes to the host: 64 bytes at a time, ending
/// with the first packet shorter than 64 bytes. Data that fills whole packets
/// is therefore followed by an empty one.
pub open spec fn packets_of(data: Seq<u8>) -> Seq<Seq<u8>>
    decreases data.len(),
{
    if data.len() < 64 {
        seq![data]
    } else {
        seq![data.take(64)] + packets_of(data.skip(64))
    }
}

/// A control IN transfer of `len` bytes goes out in `len / 64 + 1` packets:
/// packet `i` holds the bytes from `64 * i` up to `64 * (i + 1)` or the end.
/// So every packet but the last is full, the last holds `len % 64` bytes, the
/// host gets `ceil(len / 64)` packets with data, and exactly when `len` is a
/// multiple of 64 an empty packet ends the transfer.
pub proof fn lemma_packets_of(data: Seq<u8>)
    ensures
        packets_of(data).len() == data.len() / 64 + 1,
        forall|i: int|
            0 <= i < packets_of(data).len() ==> #[trigger] packets_of(data)[i] == data.subrange(
                64 * i,
                if 64 * (i + 1) < data.len() {
                    64 * (i + 1)
                } else {
                    data.len() as int
                },
            ),
        forall|i: int| 0 <= i < data.len() / 64 ==> #[trigger] packets_of(data)[i].len() == 64,
        packets_of(data).last().len() == data.len() % 64,
        (data.len() % 64 == 0) <==> packets_of(data).last().len() == 0,
    decreases data.len(),
{
    if data.len() < 64 {
        assert(data.subrange(0, data.len() as int) =~= data);
    } else {
        let rest = data.skip(64);
        lemma_packets_of(rest);
        let p = packets_of(data);
        let q = packets_of(rest);
        assert(p =~= seq![data.take(64)] + q);
        assert forall|i: int| 0 <= i < p.len() implies #[trigger] p[i] == data.subrange(
            64 * i,
            if 64 * (i + 1) < data.len() {
                64 * (i + 1)
            } else {
                data.len() as int
            },
        ) by {
            if i == 0 {
                assert(p[0] =~= data.subrange(0, 64));
            } else {
                assert(p[i] == q[i - 1]);
                let hi = if 64 * i < rest.len() {
                    64 * i
                } else {
                    rest.len() as int
                };
                assert(rest.subrange(64 * (i - 1), hi) =~= data.subrange(64 * i, hi + 64));
            }
        }
        assert forall|i: int| 0 <= i < data.len() / 64 implies #[trigger] p[i].len() == 64 by {
            if i > 0 {
                assert(p[i] == q[i - 1]);
            }
        }
        assert(p.last() == q.last());
    }
}

/// The answer of the control endpoint to a SETUP packet.
pub enum SetupAnswer {
    /// Both directions stall: the request is refused.
    Stall,
    /// An empty status packet; the request, if any, is released to the stack
    /// once the packet has gone out.
    Ack(Option<USBStackRequest>),
    /// A data stage with these bytes.
    Data(Seq<u8>),
    /// Nothing is sent yet: the request goes to the application, which
    /// replies itself.
    Forward(USBStackRequest),
}

/// `data` cut down to the `w_length` bytes that the host asked for.
pub open spec fn truncated(data: Seq<u8>, w_length: u16) -> Seq<u8> {
    if data.len() <= w_length {
        data
    } else {
        data.take(w_length as int)
    }
}

/// The bytes of the extended-properties descriptor of interface 2.
pub open spec fn spec_ms_properties_bytes() -> Seq<u8> {
    (MSPropertiesOSDescriptor {
        bcdVersion: 0x0100,
        wIndex: 5,
        wCount: 1,
        features: MSPropertiesOSDescriptorFeature {
            dwPropertyDataType: 1,
            bPropertyName: choose|v: Vec<u8>| v@ == spec_string_guid_name(),
            bPropertyData: choose|v: Vec<u8>| v@ == spec_string_guid_data(),
        },
    }).spec_bytes()
}

/// The answer to GET_DESCRIPTOR for string `idx`: 0 is the list of
/// languages; 1 to 5 are manufacturer, product, serial number and the names of
/// the SPI and CMSIS-DAP interfaces; 0xEE is the Microsoft OS string. Any
/// other index is refused.
pub open spec fn spec_string_answer(w_length: u16, idx: u8, serial: Seq<u8>) -> SetupAnswer {
    if idx == 0 {
        SetupAnswer::Data(truncated(StringDescriptor::spec_for_langs(seq![STRING_LANG]), w_length))
    } else if idx == 1 {
        SetupAnswer::Data(truncated(StringDescriptor::spec_for_text(spec_string_mfn()), w_length))
    } else if idx == 2 {
        SetupAnswer::Data(truncated(StringDescriptor::spec_for_text(spec_string_prd()), w_length))
    } else if idx == 3 {
        SetupAnswer::Data(truncated(StringDescriptor::spec_for_text(serial), w_length))
    } else if idx == 4 {
        SetupAnswer::Data(
            truncated(StringDescriptor::spec_for_text(spec_string_if_spi()), w_length),
        )
    } else if idx == 5 {
        SetupAnswer::Data(
            truncated(StringDescriptor::spec_for_text(spec_string_if_dap1()), w_length),
        )
    } else if idx == STRING_MOS_INDEX {
        SetupAnswer::Data(truncated(StringDescriptor::spec_for_text(spec_string_mos()), w_length))
    } else {
        SetupAnswer::Stall
    }
}

/// The answer to GET_DESCRIPTOR: device, configuration, string and HID report
/// descriptors are sent, cut down to `w_length`; every other type is refused.
pub open spec fn spec_descriptor_answer(
    w_length: u16,
    descriptor_type: u8,
    descriptor_index: u8,
    serial: Seq<u8>,
) -> SetupAnswer {
    match DescriptorType::spec_from_u8(descriptor_type) {
        Some(DescriptorType::Device) => SetupAnswer::Data(
            truncated(spec_device_descriptor().spec_bytes(), w_length),
        ),
        Some(DescriptorType::Configuration) => SetupAnswer::Data(
            truncated(spec_configuration_bytes(), w_length),
        ),
        Some(DescriptorType::String) => spec_string_answer(w_length, descriptor_index, serial),
        Some(DescriptorType::HIDReport) => if descriptor_index == 0 {
            SetupAnswer::Data(truncated(spec_dap1_hid_report(), w_length))
        } else {
            SetupAnswer::Stall
        },
        _ => SetupAnswer::Stall,
    }
}

/// The answer to a pin request: acknowledged with the request held back for a
/// level of 0 or 1, refused for any other value.
pub open spec fn spec_pin_answer(w_value: u16, which: VendorRequest) -> SetupAnswer {
    match PinState::spec_from_u16(w_value) {
        Some(ps) => SetupAnswer::Ack(
            Some(
                USBStackRequest::AppRequest(
                    match which {
                        VendorRequest::SetCS => Request::SetCS(ps),
                        VendorRequest::SetFPGA => Request::SetFPGA(ps),
                        VendorRequest::SetTPwr => Request::SetTPwr(ps),
                        _ => Request::SetLED(ps),
                    },
                ),
            ),
        ),
        None => SetupAnswer::Stall,
    }
}

/// The answer to a vendor request.
pub open spec fn spec_vendor_answer(setup: SetupPID) -> SetupAnswer {
    match VendorRequest::spec_from_u8(setup.bRequest) {
        Some(VendorRequest::SetCS) => spec_pin_answer(setup.wValue, VendorRequest::SetCS),
        Some(VendorRequest::SetFPGA) => spec_pin_answer(setup.wValue, VendorRequest::SetFPGA),
        Some(VendorRequest::SetTPwr) => spec_pin_answer(setup.wValue, VendorRequest::SetTPwr),
        Some(VendorRequest::SetLED) => spec_pin_answer(setup.wValue, VendorRequest::SetLED),
        Some(VendorRequest::SetMode) => match Mode::spec_from_u16(setup.wValue) {
            Some(mode) => SetupAnswer::Ack(
                Some(USBStackRequest::AppRequest(Request::SetMode(mode))),
            ),
            None => SetupAnswer::Stall,
        },
        Some(VendorRequest::GetTPwr) => SetupAnswer::Forward(
            USBStackRequest::AppRequest(Request::GetTPwr),
        ),
        Some(VendorRequest::Bootload) => SetupAnswer::Ack(
            Some(USBStackRequest::AppRequestAndDetach(Request::Bootload)),
        ),
        Some(VendorRequest::GetOSFeature) => match OSFeatureDescriptorType::spec_from_u16(
            setup.wIndex,
        ) {
            Some(OSFeatureDescriptorType::CompatibleID) => SetupAnswer::Data(
                truncated(spec_ms_compatible_id_bytes(), setup.wLength),
            ),
            Some(OSFeatureDescriptorType::Properties) => SetupAnswer::Data(
                truncated(spec_ms_properties_bytes(), setup.wLength),
            ),
            None => SetupAnswer::Stall,
        },
        None => SetupAnswer::Stall,
    }
}

/// The answer to a SETUP packet. Of the standard requests GET_DESCRIPTOR,
/// GET_STATUS, SET_ADDRESS and SET_CONFIGURATION are served; class and
/// reserved requests are refused.
pub open spec fn spec_setup_answer(setup: SetupPID, serial: Seq<u8>) -> SetupAnswer {
    match setup.spec_setup_type() {
        SetupType::Standard => match StandardRequest::spec_from_u8(setup.bRequest) {
            Some(StandardRequest::GetDescriptor) => spec_descriptor_answer(
                setup.wLength,
                (setup.wValue >> 8) as u8,
                (setup.wValue & 0xff) as u8,
                serial,
            ),
            Some(StandardRequest::GetStatus) => SetupAnswer::Data(seq![0u8, 0u8]),
            Some(StandardRequest::SetAddress) => SetupAnswer::Ack(
                Some(USBStackRequest::SetAddress(setup.wValue)),
            ),
            Some(StandardRequest::SetConfiguration) => SetupAnswer::Ack(
                if setup.wValue == 0 {
                    Some(USBStackRequest::Reset)
                } else if setup.wValue == 1 {
                    Some(USBStackRequest::SetConfiguration)
                } else {
                    None
                },
            ),
            _ => SetupAnswer::Stall,
        },
        SetupType::Vendor => spec_vendor_answer(setup),
        _ => SetupAnswer::Stall,
    }
}

/// The control endpoint.
pub struct ControlEndpoint {
    pub epbuf: EPBuf,
    pub btable: BTableRow,
    /// Request held back until the acknowledgement has gone out.
    pub pending_request: Option<USBStackRequest>,
    /// Offset and length of the data in `pending_tx_buf` still to be sent.
    pub pending_tx: Option<(usize, usize)>,
    pub pending_tx_buf: Vec<u8>,
    /// The serial number, 24 hexadecimal digits.
    pub serial: Vec<u8>,
    pub stat_tx: Stat,
    pub stat_rx: Stat,
}

impl ControlEndpoint {
    pub open spec fn wf(&self) -> bool {
        &&& self.epbuf.wf()
        &&& self.pending_tx_buf@.len() == 256
        &&& self.serial@.len() == 24
        &&& self.btable.COUNT_TX <= 64
        &&& match self.pending_tx {
            Some((idx, len)) => idx + len <= 256,
            None => true,
        }
    }

    /// The packet that is loaded for transmission.
    pub open spec fn packet(&self) -> Seq<u8> {
        bytes_of(self.epbuf.tx@, self.btable.COUNT_TX as int)
    }

    /// The packets that will follow the loaded one.
    pub open spec fn queue(&self) -> Seq<Seq<u8>> {
        match self.pending_tx {
            Some((idx, len)) => packets_of(
                self.pending_tx_buf@.subrange(idx as int, idx + len),
            ),
            None => Seq::empty(),
        }
    }

    /// What stays as it is whatever the endpoint does with a request.
    pub open spec fn same_frame(&self, old: &Self) -> bool {
        &&& self.wf()
        &&& self.serial@ == old.serial@
        &&& self.epbuf.rx@ == old.epbuf.rx@
        &&& self.btable.COUNT_RX == old.btable.COUNT_RX
    }

    /// The endpoint has loaded the first packet of `data` and queued the rest.
    /// Data shorter than a packet leaves the queue as it was.
    pub open spec fn sent(&self, old: &Self, data: Seq<u8>) -> bool {
        &&& self.same_frame(old)
        &&& self.stat_tx == Stat::Valid
        &&& self.stat_rx == old.stat_rx
        &&& self.pending_request == old.pending_request
        &&& if data.len() < 64 {
            self.packet() == data && self.queue() == old.queue()
        } else {
            seq![self.packet()] + self.queue() == packets_of(data)
        }
    }

    /// Both directions stall and nothing else has changed.
    pub open spec fn stalled(&self, old: &Self) -> bool {
        &&& self.same_frame(old)
        &&& self.stat_tx == Stat::Stall
        &&& self.stat_rx == Stat::Stall
        &&& self.pending_request == old.pending_request
        &&& self.packet() == old.packet()
        &&& self.queue() == old.queue()
    }

    /// An empty packet is loaded and `pending` is held back.
    pub open spec fn acked(&self, old: &Self, pending: Option<USBStackRequest>) -> bool {
        &&& self.same_frame(old)
        &&& self.stat_tx == Stat::Valid
        &&& self.stat_rx == old.stat_rx
        &&& self.pending_request == pending
        &&& self.btable.COUNT_TX == 0
        &&& self.queue() == old.queue()
    }

    /// The endpoint has given answer `a`.
    pub open spec fn answered(&self, old: &Self, a: SetupAnswer) -> bool {
        match a {
            SetupAnswer::Stall => self.stalled(old),
            SetupAnswer::Ack(p) => self.acked(old, p),
            SetupAnswer::Data(d) => self.sent(old, d),
            SetupAnswer::Forward(_) => {
                &&& self.same_frame(old)
                &&& self.stat_tx == old.stat_tx
                &&& self.stat_rx == old.stat_rx
                &&& self.pending_request == old.pending_request
                &&& self.packet() == old.packet()
                &&& self.queue() == old.queue()
            },
        }
    }

    /// What is left of answer `a` once the endpoint receives again: the
    /// packets that are loaded and queued, the request that is held back, and
    /// the state of the transmitter.
    pub open spec fn loaded(&self, old: &Self, a: SetupAnswer) -> bool {
        match a {
            SetupAnswer::Stall => {
                &&& self.stat_tx == Stat::Stall
                &&& self.pending_request == old.pending_request
                &&& self.packet() == old.packet()
                &&& self.queue() == old.queue()
            },
            SetupAnswer::Ack(p) => {
                &&& self.stat_tx == Stat::Valid
                &&& self.pending_request == p
                &&& self.btable.COUNT_TX == 0
                &&& self.queue() == old.queue()
            },
            SetupAnswer::Data(d) => {
                &&& self.stat_tx == Stat::Valid
                &&& self.pending_request == old.pending_request
                &&& if d.len() < 64 {
                    self.packet() == d && self.queue() == old.queue()
                } else {
                    seq![self.packet()] + self.queue() == packets_of(d)
                }
            },
            SetupAnswer::Forward(_) => {
                &&& self.stat_tx == old.stat_tx
                &&& self.pending_request == old.pending_request
                &&& self.packet() == old.packet()
                &&& self.queue() == old.queue()
            },
        }
    }

    /// What the end of a transmission does: the next packet of a staged
    /// transfer is loaded, and no request is held back any more.
    pub open spec fn continued(&self, old: &Self) -> bool {
        &&& self.pending_request.is_none()
        &&& self.stat_rx == old.stat_rx
        &&& old.pending_tx.is_some() ==> {
            &&& old.queue().len() > 0
            &&& self.packet() == old.queue()[0]
            &&& self.queue() == old.queue().skip(1)
            &&& self.stat_tx == Stat::Valid
        }
        &&& old.pending_tx.is_none() ==> {
            &&& self.packet() == old.packet()
            &&& self.queue() == old.queue()
            &&& self.stat_tx == old.stat_tx
        }
    }

    /// A fresh endpoint for a device with the given serial number.
    pub fn new(serial: Vec<u8>) -> (r: ControlEndpoint)
        requires
            serial@.len() == 24,
        ensures
            r.wf(),
            r.serial@ == serial@,
            r.pending_request.is_none(),
            r.pending_tx.is_none(),
            r.stat_tx == Stat::Disabled,
            r.stat_rx == Stat::Disabled,
    {
        let mut buf: Vec<u8> = Vec::new();
        let mut i: usize = 0;
        while i < 256
            invariant
                i <= 256,
                buf@.len() == i,
            decreases 256 - i,
        {
            buf.push(0);
            i += 1;
        }
        ControlEndpoint {
            epbuf: EPBuf::new(),
            btable: BTableRow::new(),
            pending_request: None,
            pending_tx: None,
            pending_tx_buf: buf,
            serial,
            stat_tx: Stat::Disabled,
            stat_rx: Stat::Disabled,
        }
    }

    /// Points the buffer-table row at the endpoint's buffers.
    pub fn write_btable(&mut self, addr_tx: u16, addr_rx: u16)
        requires
            old(self).wf(),
        ensures
            final(self).wf(),
            final(self).btable == (BTableRow {
                ADDR_TX: addr_tx,
                COUNT_TX: 0,
                ADDR_RX: addr_rx,
                COUNT_RX: 0x8400,
            }),
            final(self).serial@ == old(self).serial@,
            final(self).pending_request == old(self).pending_request,
            final(self).queue() == old(self).queue(),
    {
        self.btable.write(addr_tx, addr_rx);
    }

    /// After a bus reset the endpoint receives and does not transmit.
    pub fn reset_endpoint(&mut self)
        ensures
            *final(self) == (ControlEndpoint {
                stat_tx: Stat::Nak,
                stat_rx: Stat::Valid,
                ..*old(self)
            }),
    {
        self.stat_tx = Stat::Nak;
        self.stat_rx = Stat::Valid;
    }

    /// Configuring leaves the control endpoint as the reset made it.
    pub fn configure_endpoint(&mut self)
        ensures
            *final(self) == *old(self),
    {
    }

    /// Marks the loaded packet as ready for transmission.
    fn tx_valid(&mut self)
        ensures
            *final(self) == (ControlEndpoint { stat_tx: Stat::Valid, ..*old(self) }),
    {
        self.stat_tx = Stat::Valid;
    }

    /// Makes the endpoint ready to receive again.
    pub fn rx_valid(&mut self)
        ensures
            *final(self) == (ControlEndpoint { stat_rx: Stat::Valid, ..*old(self) }),
    {
        self.stat_rx = Stat::Valid;
    }

    /// Reception on the control endpoint is never stalled by itself.
    pub fn rx_stall(&mut self)
        ensures
            *final(self) == *old(self),
    {
    }

    /// Refuses a request: both directions stall until the next SETUP packet.
    fn stall(&mut self)
        requires
            old(self).wf(),
        ensures
            final(self).stalled(old(self)),
    {
        self.stat_tx = Stat::Stall;
        self.stat_rx = Stat::Stall;
    }

    /// Loads an empty status packet.
    fn transmit_ack(&mut self)
        requires
            old(self).wf(),
        ensures
            final(self).acked(old(self), old(self).pending_request),
    {
        self.btable.tx_count(0);
        self.tx_valid();
    }

    /// Loads the next packet of a staged transfer, if one is staged: up to 64
    /// bytes, or an empty packet when the data ended on a packet boundary.
    pub fn transmit_next(&mut self)
        requires
            old(self).wf(),
        ensures
            final(self).same_frame(old(self)),
            final(self).pending_request == old(self).pending_request,
            final(self).stat_rx == old(self).stat_rx,
            old(self).pending_tx.is_some() ==> {
                &&& old(self).queue().len() > 0
                &&& final(self).packet() == old(self).queue()[0]
                &&& final(self).queue() == old(self).queue().skip(1)
                &&& final(self).stat_tx == Stat::Valid
            },
            old(self).pending_tx.is_none() ==> {
                &&& final(self).packet() == old(self).packet()
                &&& final(self).queue() == old(self).queue()
                &&& final(self).stat_tx == old(self).stat_tx
            },
    {
        if let Some((idx, len)) = self.pending_tx {
            let ghost rest = self.pending_tx_buf@.subrange(idx as int, idx + len);
            if len < 64 {
                let chunk = slice_subrange(self.pending_tx_buf.as_slice(), idx, idx + len);
                self.epbuf.write_tx(chunk);
                self.btable.tx_count(len);
                self.pending_tx = None;
                proof {
                    assert(old(self).queue() =~= seq![rest]);
                    assert(self.queue() =~= old(self).queue().skip(1));
                }
            } else {
                let chunk = slice_subrange(self.pending_tx_buf.as_slice(), idx, idx + 64);
                self.epbuf.write_tx(chunk);
                self.btable.tx_count(64);
                self.pending_tx = Some((idx + 64, len - 64));
                proof {
                    assert(rest.take(64) =~= chunk@);
                    assert(rest.skip(64) =~= self.pending_tx_buf@.subrange(
                        idx + 64,
                        idx + 64 + (len - 64),
                    ));
                    assert(old(self).queue() =~= seq![rest.take(64)] + packets_of(rest.skip(64)));
                    assert(self.queue() =~= old(self).queue().skip(1));
                }
            }
            self.tx_valid();
        }
    }

    /// Starts a control IN transfer of `data`: loads the first packet and, for
    /// data of 64 bytes or more, stages the rest.
    pub fn transmit_slice(&mut self, data: &[u8])
        requires
            old(self).wf(),
            data@.len() <= MAX_TRANSFER,
        ensures
            final(self).sent(old(self), data@),
    {
        if data.len() < 64 {
            self.epbuf.write_tx(data);
            self.btable.tx_count(data.len());
        } else {
            let first = slice_subrange(data, 0, 64);
            self.epbuf.write_tx(first);
            self.btable.tx_count(64);
            let leftover: usize = data.len() - 64;
            let mut i: usize = 0;
            while i < leftover
                invariant
                    i <= leftover,
                    leftover == data@.len() - 64,
                    leftover <= 256,
                    self.pending_tx_buf@.len() == 256,
                    forall|j: int| 0 <= j < i ==> self.pending_tx_buf@[j] == data@[64 + j],
                    self.epbuf.wf(),
                    self.epbuf.rx@ == old(self).epbuf.rx@,
                    bytes_of(self.epbuf.tx@, 64) == first@,
                    self.btable == (BTableRow { COUNT_TX: 64, ..old(self).btable }),
                    self.serial@ == old(self).serial@,
                    self.stat_tx == old(self).stat_tx,
                    self.stat_rx == old(self).stat_rx,
                    self.pending_request == old(self).pending_request,
                decreases leftover - i,
            {
                self.pending_tx_buf.set(i, data[64 + i]);
                i += 1;
            }
            self.pending_tx = Some((0, leftover));
            proof {
                assert(self.pending_tx_buf@.subrange(0, leftover as int) =~= data@.skip(64));
                assert(first@ =~= data@.take(64));
            }
        }
        self.tx_valid();
    }

    /// Answers GET_DESCRIPTOR for the device descriptor.
    fn process_get_device_descriptor(&mut self, w_length: u16)
        requires
            old(self).wf(),
        ensures
            final(self).sent(
                old(self),
                truncated(spec_device_descriptor().spec_bytes(), w_length),
            ),
    {
        let data = device_descriptor().to_bytes();
        self.transmit_truncated(data.as_slice(), w_length);
    }

    /// Sends `data`, cut down to `w_length` bytes.
    fn transmit_truncated(&mut self, data: &[u8], w_length: u16)
        requires
            old(self).wf(),
            data@.len() <= MAX_TRANSFER,
        ensures
            final(self).sent(old(self), truncated(data@, w_length)),
    {
        if data.len() <= w_length as usize {
            self.transmit_slice(data);
        } else {
            let cut = slice_subrange(data, 0, w_length as usize);
            assert(cut@ =~= data@.take(w_length as int));
            self.transmit_slice(cut);
        }
    }

    /// Answers GET_DESCRIPTOR for the configuration: the configuration
    /// descriptor with every interface, HID and endpoint descriptor behind it.
    fn process_get_configuration_descriptor(&mut self, w_length: u16)
        requires
            old(self).wf(),
        ensures
            final(self).sent(old(self), truncated(spec_configuration_bytes(), w_length)),
    {
        let buf = configuration_bytes();
        self.transmit_truncated(buf.as_slice(), w_length);
    }

    /// Answers GET_DESCRIPTOR for a string.
    fn process_get_string_descriptor(&mut self, w_length: u16, idx: u8)
        requires
            old(self).wf(),
        ensures
            final(self).answered(old(self), spec_string_answer(w_length, idx, old(self).serial@)),
    {
        let desc = if idx == 0 {
            let langs: Vec<u16> = vec![STRING_LANG];
            assert(langs@ =~= seq![STRING_LANG]);
            StringDescriptor::for_langs(langs.as_slice())
        } else if idx == 1 {
            StringDescriptor::for_text(string_mfn().as_slice())
        } else if idx == 2 {
            StringDescriptor::for_text(string_prd().as_slice())
        } else if idx == 3 {
            StringDescriptor::for_text(self.serial.as_slice())
        } else if idx == 4 {
            StringDescriptor::for_text(string_if_spi().as_slice())
        } else if idx == 5 {
            StringDescriptor::for_text(string_if_dap1().as_slice())
        } else if idx == STRING_MOS_INDEX {
            StringDescriptor::for_text(string_mos().as_slice())
        } else {
            self.stall();
            return ;
        };
        let data = desc.to_bytes();
        self.transmit_truncated(data.as_slice(), w_length);
    }

    /// Answers GET_DESCRIPTOR for a HID report descriptor.
    fn process_get_hid_report_descriptor(&mut self, w_length: u16, idx: u8)
        requires
            old(self).wf(),
        ensures
            final(self).answered(
                old(self),
                if idx == 0 {
                    SetupAnswer::Data(truncated(spec_dap1_hid_report(), w_length))
                } else {
                    SetupAnswer::Stall
                },
            ),
    {
        if idx != 0 {
            self.stall();
            return ;
        }
        let report = dap1_hid_report();
        self.transmit_truncated(report.as_slice(), w_length);
    }

    /// Answers a GET_DESCRIPTOR request.
    fn process_get_descriptor(&mut self, w_length: u16, descriptor_type: u8, descriptor_index: u8)
        requires
            old(self).wf(),
        ensures
            final(self).answered(
                old(self),
                spec_descriptor_answer(
                    w_length,
                    descriptor_type,
                    descriptor_index,
                    old(self).serial@,
                ),
            ),
    {
        match DescriptorType::try_from_u8(descriptor_type) {
            Some(DescriptorType::Device) => self.process_get_device_descriptor(w_length),
            Some(DescriptorType::Configuration) => self.process_get_configuration_descriptor(
                w_length,
            ),
            Some(DescriptorType::String) => self.process_get_string_descriptor(
                w_length,
                descriptor_index,
            ),
            Some(DescriptorType::HIDReport) => self.process_get_hid_report_descriptor(
                w_length,
                descriptor_index,
            ),
            _ => self.stall(),
        }
    }

    /// Acknowledges a request and holds `request` back until the
    /// acknowledgement has gone out.
    fn ack_with(&mut self, request: Option<USBStackRequest>)
        requires
            old(self).wf(),
        ensures
            final(self).acked(old(self), request),
    {
        self.pending_request = request;
        self.transmit_ack();
    }

    /// Answers a pin request.
    fn process_pin_request(&mut self, w_value: u16, which: VendorRequest)
        requires
            old(self).wf(),
        ensures
            final(self).answered(old(self), spec_pin_answer(w_value, which)),
    {
        match PinState::try_from_u16(w_value) {
            Some(ps) => {
                let req = match which {
                    VendorRequest::SetCS => Request::SetCS(ps),
                    VendorRequest::SetFPGA => Request::SetFPGA(ps),
                    VendorRequest::SetTPwr => Request::SetTPwr(ps),
                    _ => Request::SetLED(ps),
                };
                self.ack_with(Some(USBStackRequest::AppRequest(req)));
            },
            None => {
                self.stall();
            },
        }
    }

    /// Answers a Microsoft OS feature request.
    fn process_get_os_feature(&mut self, w_index: u16, w_length: u16)
        requires
            old(self).wf(),
        ensures
            final(self).answered(
                old(self),
                match OSFeatureDescriptorType::spec_from_u16(w_index) {
                    Some(OSFeatureDescriptorType::CompatibleID) => SetupAnswer::Data(
                        truncated(spec_ms_compatible_id_bytes(), w_length),
                    ),
                    Some(OSFeatureDescriptorType::Properties) => SetupAnswer::Data(
                        truncated(spec_ms_properties_bytes(), w_length),
                    ),
                    None => SetupAnswer::Stall,
                },
            ),
    {
        match OSFeatureDescriptorType::try_from_u16(w_index) {
            Some(OSFeatureDescriptorType::CompatibleID) => {
                let data = ms_compatible_id_descriptor().to_bytes();
                self.transmit_truncated(data.as_slice(), w_length);
            },
            Some(OSFeatureDescriptorType::Properties) => {
                let desc = if2_ms_properties_os_descriptor();
                let mut data: Vec<u8> = Vec::new();
                desc.write_to_buf(&mut data);
                assert(data@ =~= desc.spec_bytes());
                assert(desc.spec_bytes() == spec_ms_properties_bytes());
                assert(data@.len() == 142);
                self.transmit_truncated(data.as_slice(), w_length);
            },
            None => {
                self.stall();
            },
        }
    }

    /// Answers a vendor request. Pin, mode and bootload requests are
    /// acknowledged and held back until the acknowledgement has gone out; the
    /// target power query goes straight to the application; anything unknown
    /// is refused.
    fn process_vendor_request(&mut self, setup: &SetupPID) -> (r: Option<USBStackRequest>)
        requires
            old(self).wf(),
        ensures
            final(self).answered(old(self), spec_vendor_answer(*setup)),
            r == match spec_vendor_answer(*setup) {
                SetupAnswer::Forward(req) => Some(req),
                _ => None,
            },
    {
        match VendorRequest::try_from_u8(setup.bRequest) {
            Some(VendorRequest::SetCS) => {
                self.process_pin_request(setup.wValue, VendorRequest::SetCS);
                None
            },
            Some(VendorRequest::SetFPGA) => {
                self.process_pin_request(setup.wValue, VendorRequest::SetFPGA);
                None
            },
            Some(VendorRequest::SetMode) => {
                match Mode::try_from_u16(setup.wValue) {
                    Some(mode) => {
                        self.ack_with(Some(USBStackRequest::AppRequest(Request::SetMode(mode))));
                    },
                    None => {
                        self.stall();
                    },
                }
                None
            },
            Some(VendorRequest::SetTPwr) => {
                self.process_pin_request(setup.wValue, VendorRequest::SetTPwr);
                None
            },
            Some(VendorRequest::GetTPwr) => {
                Some(USBStackRequest::AppRequest(Request::GetTPwr))
            },
            Some(VendorRequest::SetLED) => {
                self.process_pin_request(setup.wValue, VendorRequest::SetLED);
                None
            },
            Some(VendorRequest::Bootload) => {
                self.ack_with(Some(USBStackRequest::AppRequestAndDetach(Request::Bootload)));
                None
            },
            Some(VendorRequest::GetOSFeature) => {
                self.process_get_os_feature(setup.wIndex, setup.wLength);
                None
            },
            None => {
                self.stall();
                None
            },
        }
    }

    /// Answers the SETUP packet in the receive buffer.
    pub fn process_setup(&mut self) -> (r: Option<USBStackRequest>)
        requires
            old(self).wf(),
        ensures
            final(self).answered(
                old(self),
                spec_setup_answer(
                    SetupPID::spec_from_words(old(self).epbuf.rx@),
                    old(self).serial@,
                ),
            ),
            r == match spec_setup_answer(
                SetupPID::spec_from_words(old(self).epbuf.rx@),
                old(self).serial@,
            ) {
                SetupAnswer::Forward(req) => Some(req),
                _ => None,
            },
    {
        let setup = SetupPID::from_buf(&self.epbuf);
        match setup.setup_type() {
            SetupType::Standard => match StandardRequest::try_from_u8(setup.bRequest) {
                Some(StandardRequest::GetDescriptor) => {
                    let descriptor_index: u8 = (setup.wValue & 0xff) as u8;
                    let descriptor_type: u8 = (setup.wValue >> 8) as u8;
                    self.process_get_descriptor(setup.wLength, descriptor_type, descriptor_index);
                    None
                },
                Some(StandardRequest::GetStatus) => {
                    let data: Vec<u8> = vec![0u8, 0u8];
                    assert(data@ =~= seq![0u8, 0u8]);
                    self.transmit_slice(data.as_slice());
                    None
                },
                Some(StandardRequest::SetAddress) => {
                    self.ack_with(Some(USBStackRequest::SetAddress(setup.wValue)));
                    None
                },
                Some(StandardRequest::SetConfiguration) => {
                    let pending = if setup.wValue == 0 {
                        Some(USBStackRequest::Reset)
                    } else if setup.wValue == 1 {
                        Some(USBStackRequest::SetConfiguration)
                    } else {
                        None
                    };
                    self.ack_with(pending);
                    None
                },
                _ => {
                    self.stall();
                    None
                },
            },
            SetupType::Vendor => self.process_vendor_request(&setup),
            _ => {
                self.stall();
                None
            },
        }
    }

    /// Handles the end of a transmission: loads the next packet of a staged
    /// transfer, and releases the request that waited for the acknowledgement.
    pub fn process_tx_complete(&mut self) -> (r: Option<USBStackRequest>)
        requires
            old(self).wf(),
        ensures
            final(self).same_frame(old(self)),
            r == old(self).pending_request,
            final(self).continued(old(self)),
            final(self).pending_request.is_none(),
            final(self).stat_rx == old(self).stat_rx,
            old(self).pending_tx.is_some() ==> {
                &&& old(self).queue().len() > 0
                &&& final(self).packet() == old(self).queue()[0]
                &&& final(self).queue() == old(self).queue().skip(1)
                &&& final(self).stat_tx == Stat::Valid
            },
            old(self).pending_tx.is_none() ==> {
                &&& final(self).packet() == old(self).packet()
                &&& final(self).queue() == old(self).queue()
                &&& final(self).stat_tx == old(self).stat_tx
            },
    {
        if self.pending_tx.is_some() {
            self.transmit_next();
        }
        self.pending_request.take()
    }

    /// Handles the end of a reception: answers a SETUP packet, ignores
    /// anything else, and makes the endpoint ready to receive again.
    pub fn process_rx_complete(&mut self, setup: bool) -> (r: Option<USBStackRequest>)
        requires
            old(self).wf(),
        ensures
            final(self).wf(),
            final(self).stat_rx == Stat::Valid,
            final(self).serial@ == old(self).serial@,
            setup ==> final(self).loaded(
                old(self),
                spec_setup_answer(
                    SetupPID::spec_from_words(old(self).epbuf.rx@),
                    old(self).serial@,
                ),
            ),
            setup ==> r == match spec_setup_answer(
                SetupPID::spec_from_words(old(self).epbuf.rx@),
                old(self).serial@,
            ) {
                SetupAnswer::Forward(req) => Some(req),
                _ => None,
            },
            setup ==> final(self).pending_request == match spec_setup_answer(
                SetupPID::spec_from_words(old(self).epbuf.rx@),
                old(self).serial@,
            ) {
                SetupAnswer::Ack(p) => p,
                _ => old(self).pending_request,
            },
            !setup ==> r.is_none() && final(self).pending_request == old(self).pending_request
                && final(self).packet() == old(self).packet() && final(self).queue() == old(
                self,
            ).queue() && final(self).stat_tx == old(self).stat_tx,
    {
        let stack_request = if setup {
            self.process_setup()
        } else {
            None
        };
        self.rx_valid();
        stack_request
    }

    /// Handles a completed transfer. `ctr_tx` and `ctr_rx` say which
    /// direction completed; where both did, the transmission is handled now
    /// and the reception at the next call. `setup` says whether the packet
    /// received was a SETUP packet.
    pub fn process_transfer(&mut self, ctr_tx: bool, ctr_rx: bool, setup: bool) -> (r: Option<
        USBStackRequest,
    >)
        requires
            old(self).wf(),
        ensures
            final(self).wf(),
            final(self).serial@ == old(self).serial@,
            ctr_tx ==> final(self).continued(old(self)),
            !ctr_tx && ctr_rx ==> final(self).stat_rx == Stat::Valid,
            !ctr_tx && ctr_rx && setup ==> final(self).loaded(
                old(self),
                spec_setup_answer(
                    SetupPID::spec_from_words(old(self).epbuf.rx@),
                    old(self).serial@,
                ),
            ),
            ctr_tx ==> r == old(self).pending_request && final(self).pending_request.is_none(),
            !ctr_tx && !ctr_rx ==> r.is_none() && final(self).pending_request == old(
                self,
            ).pending_request,
            !ctr_tx && ctr_rx && setup ==> r == match spec_setup_answer(
                SetupPID::spec_from_words(old(self).epbuf.rx@),
                old(self).serial@,
            ) {
                SetupAnswer::Forward(req) => Some(req),
                _ => None,
            },
            !ctr_tx && ctr_rx && !setup ==> r.is_none(),
    {
        if ctr_tx {
            self.process_tx_complete()
        } else if ctr_rx {
            self.process_rx_complete(setup)
        } else {
            None
        }
    }
}

} // verus!
