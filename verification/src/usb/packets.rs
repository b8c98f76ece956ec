//! Setup packets, request codes and descriptors, with their byte layout.

#![allow(non_snake_case)]

use vstd::prelude::*;
use crate::bytes::{le16, le32, push_u16, push_u32, push_slice, push_utf16le, utf16le};
use super::buffers::EPBuf;

verus! {

/// The eight bytes of a SETUP packet.
#[allow(non_snake_case)]
#[derive(Copy, Clone, PartialEq, Eq, Structural, Debug)]
pub struct SetupPID {
    pub bmRequestType: u8,
    pub bRequest: u8,
    pub wValue: u16,
    pub wIndex: u16,
    pub wLength: u16,
}

/// Standard device requests.
#[derive(Copy, Clone, PartialEq, Eq, Structural, Debug)]
pub enum StandardRequest {
    ClearFeature,
    GetConfiguration,
    GetDescriptor,
    GetInterface,
    GetStatus,
    SetAddress,
    SetConfiguration,
    SetDescriptor,
    SetFeature,
    SetInterface,
    SynchFrame,
}

impl StandardRequest {
    pub open spec fn spec_from_u8(v: u8) -> Option<StandardRequest> {
        match v {
            0 => Some(StandardRequest::GetStatus),
            1 => Some(StandardRequest::ClearFeature),
            3 => Some(StandardRequest::SetFeature),
            5 => Some(StandardRequest::SetAddress),
            6 => Some(StandardRequest::GetDescriptor),
            7 => Some(StandardRequest::SetDescriptor),
            8 => Some(StandardRequest::GetConfiguration),
            9 => Some(StandardRequest::SetConfiguration),
            10 => Some(StandardRequest::GetInterface),
            11 => Some(StandardRequest::SetInterface),
            12 => Some(StandardRequest::SynchFrame),
            _ => None,
        }
    }

    /// Decodes `bRequest` of a standard request.
    pub fn try_from_u8(v: u8) -> (r: Option<StandardRequest>)
        ensures
            r == Self::spec_from_u8(v),
    {
        match v {
            0 => Some(StandardRequest::GetStatus),
            1 => Some(StandardRequest::ClearFeature),
            3 => Some(StandardRequest::SetFeature),
            5 => Some(StandardRequest::SetAddress),
            6 => Some(StandardRequest::GetDescriptor),
            7 => Some(StandardRequest::SetDescriptor),
            8 => Some(StandardRequest::GetConfiguration),
            9 => Some(StandardRequest::SetConfiguration),
            10 => Some(StandardRequest::GetInterface),
            11 => Some(StandardRequest::SetInterface),
            12 => Some(StandardRequest::SynchFrame),
            _ => None,
        }
    }
}

/// Vendor requests of the adapter.
#[derive(Copy, Clone, PartialEq, Eq, Structural, Debug)]
pub enum VendorRequest {
    SetCS,
    SetFPGA,
    SetMode,
    SetTPwr,
    GetTPwr,
    SetLED,
    Bootload,
    GetOSFeature,
}

impl VendorRequest {
    pub open spec fn spec_from_u8(v: u8) -> Option<VendorRequest> {
        match v {
            1 => Some(VendorRequest::SetCS),
            2 => Some(VendorRequest::SetFPGA),
            3 => Some(VendorRequest::SetMode),
            4 => Some(VendorRequest::SetTPwr),
            5 => Some(VendorRequest::GetTPwr),
            6 => Some(VendorRequest::SetLED),
            7 => Some(VendorRequest::Bootload),
            0x41 => Some(VendorRequest::GetOSFeature),
            _ => None,
        }
    }

    /// Decodes `bRequest` of a vendor request.
    pub fn try_from_u8(v: u8) -> (r: Option<VendorRequest>)
        ensures
            r == Self::spec_from_u8(v),
    {
        match v {
            1 => Some(VendorRequest::SetCS),
            2 => Some(VendorRequest::SetFPGA),
            3 => Some(VendorRequest::SetMode),
            4 => Some(VendorRequest::SetTPwr),
            5 => Some(VendorRequest::GetTPwr),
            6 => Some(VendorRequest::SetLED),
            7 => Some(VendorRequest::Bootload),
            0x41 => Some(VendorRequest::GetOSFeature),
            _ => None,
        }
    }
}

/// Descriptor types.
#[derive(Copy, Clone, PartialEq, Eq, Structural, Debug)]
pub enum DescriptorType {
    Device,
    Configuration,
    String,
    Interface,
    Endpoint,
    HID,
    HIDReport,
}

impl DescriptorType {
    pub open spec fn spec_from_u8(v: u8) -> Option<DescriptorType> {
        match v {
            1 => Some(DescriptorType::Device),
            2 => Some(DescriptorType::Configuration),
            3 => Some(DescriptorType::String),
            4 => Some(DescriptorType::Interface),
            5 => Some(DescriptorType::Endpoint),
            0x21 => Some(DescriptorType::HID),
            0x22 => Some(DescriptorType::HIDReport),
            _ => None,
        }
    }

    /// Decodes the descriptor type of a GET_DESCRIPTOR request.
    pub fn try_from_u8(v: u8) -> (r: Option<DescriptorType>)
        ensures
            r == Self::spec_from_u8(v),
    {
        match v {
            1 => Some(DescriptorType::Device),
            2 => Some(DescriptorType::Configuration),
            3 => Some(DescriptorType::String),
            4 => Some(DescriptorType::Interface),
            5 => Some(DescriptorType::Endpoint),
            0x21 => Some(DescriptorType::HID),
            0x22 => Some(DescriptorType::HIDReport),
            _ => None,
        }
    }

    pub open spec fn spec_code(self) -> u8 {
        match self {
            DescriptorType::Device => 1u8,
            DescriptorType::Configuration => 2u8,
            DescriptorType::String => 3u8,
            DescriptorType::Interface => 4u8,
            DescriptorType::Endpoint => 5u8,
            DescriptorType::HID => 0x21u8,
            DescriptorType::HIDReport => 0x22u8,
        }
    }

    /// The code of a descriptor type.
    pub fn code(self) -> (r: u8)
        ensures
            r == self.spec_code(),
            Self::spec_from_u8(r) == Some(self),
    {
        match self {
            DescriptorType::Device => 1,
            DescriptorType::Configuration => 2,
            DescriptorType::String => 3,
            DescriptorType::Interface => 4,
            DescriptorType::Endpoint => 5,
            DescriptorType::HID => 0x21,
            DescriptorType::HIDReport => 0x22,
        }
    }
}

/// Microsoft OS feature descriptors, selected by `wIndex`.
#[derive(Copy, Clone, PartialEq, Eq, Structural, Debug)]
pub enum OSFeatureDescriptorType {
    CompatibleID,
    Properties,
}

impl OSFeatureDescriptorType {
    pub open spec fn spec_from_u16(v: u16) -> Option<OSFeatureDescriptorType> {
        match v {
            4 => Some(OSFeatureDescriptorType::CompatibleID),
            5 => Some(OSFeatureDescriptorType::Properties),
            _ => None,
        }
    }

    pub fn try_from_u16(v: u16) -> (r: Option<OSFeatureDescriptorType>)
        ensures
            r == Self::spec_from_u16(v),
    {
        match v {
            4 => Some(OSFeatureDescriptorType::CompatibleID),
            5 => Some(OSFeatureDescriptorType::Properties),
            _ => None,
        }
    }
}

/// Registry data types of a Microsoft extended property.
#[allow(non_camel_case_types)]
#[derive(Copy, Clone, PartialEq, Eq, Structural, Debug)]
pub enum MSPropertyDataType {
    REG_SZ,
    REG_EXPAND_SZ,
    REG_BINARY,
    REG_DWORD_LITTLE_ENDIAN,
    REG_DWORD_BIG_ENDIAN,
    REG_LINK,
    REG_MULTI_SZ,
}

impl MSPropertyDataType {
    pub open spec fn spec_code(self) -> u32 {
        match self {
            MSPropertyDataType::REG_SZ => 1u32,
            MSPropertyDataType::REG_EXPAND_SZ => 2u32,
            MSPropertyDataType::REG_BINARY => 3u32,
            MSPropertyDataType::REG_DWORD_LITTLE_ENDIAN => 4u32,
            MSPropertyDataType::REG_DWORD_BIG_ENDIAN => 5u32,
            MSPropertyDataType::REG_LINK => 6u32,
            MSPropertyDataType::REG_MULTI_SZ => 7u32,
        }
    }

    pub fn code(self) -> (r: u32)
        ensures
            r == self.spec_code(),
    {
        match self {
            MSPropertyDataType::REG_SZ => 1,
            MSPropertyDataType::REG_EXPAND_SZ => 2,
            MSPropertyDataType::REG_BINARY => 3,
            MSPropertyDataType::REG_DWORD_LITTLE_ENDIAN => 4,
            MSPropertyDataType::REG_DWORD_BIG_ENDIAN => 5,
            MSPropertyDataType::REG_LINK => 6,
            MSPropertyDataType::REG_MULTI_SZ => 7,
        }
    }
}

/// Direction of the data stage of a control transfer.
#[derive(Copy, Clone, PartialEq, Eq, Structural, Debug)]
pub enum SetupDirection {
    HostToDevice,
    DeviceToHost,
}

/// Kind of a control request.
#[derive(Copy, Clone, PartialEq, Eq, Structural, Debug)]
pub enum SetupType {
    Standard,
    Class,
    Vendor,
    Reserved,
}

/// Recipient of a control request.
#[derive(Copy, Clone, PartialEq, Eq, Structural, Debug)]
pub enum SetupRecipient {
    Device,
    Interface,
    Endpoint,
    Other,
    Unknown,
}

impl SetupPID {
    /// The SETUP packet held in the first four words of a receive buffer.
    pub open spec fn spec_from_words(rx: Seq<u16>) -> SetupPID {
        SetupPID {
            bmRequestType: (rx[0] & 0xff) as u8,
            bRequest: (rx[0] >> 8) as u8,
            wValue: rx[1],
            wIndex: rx[2],
            wLength: rx[3],
        }
    }

    /// Reads the SETUP packet out of an endpoint's receive buffer.
    pub fn from_buf(buf: &EPBuf) -> (r: SetupPID)
        requires
            buf.wf(),
        ensures
            r == Self::spec_from_words(buf.rx@),
    {
        let w0: u16 = buf.rx[0];
        SetupPID {
            bmRequestType: (w0 & 0xff) as u8,
            bRequest: (w0 >> 8) as u8,
            wValue: buf.rx[1],
            wIndex: buf.rx[2],
            wLength: buf.rx[3],
        }
    }

    pub open spec fn spec_setup_direction(&self) -> SetupDirection {
        if self.bmRequestType & 0x80 == 0 {
            SetupDirection::HostToDevice
        } else {
            SetupDirection::DeviceToHost
        }
    }

    /// Bit 7 of `bmRequestType`.
    pub fn setup_direction(&self) -> (r: SetupDirection)
        ensures
            r == self.spec_setup_direction(),
    {
        if self.bmRequestType & 0x80 == 0 {
            SetupDirection::HostToDevice
        } else {
            SetupDirection::DeviceToHost
        }
    }

    pub open spec fn spec_setup_type(&self) -> SetupType {
        let x = (self.bmRequestType & 0x60) >> 5;
        if x == 0 {
            SetupType::Standard
        } else if x == 1 {
            SetupType::Class
        } else if x == 2 {
            SetupType::Vendor
        } else {
            SetupType::Reserved
        }
    }

    /// Bits 6 and 5 of `bmRequestType`.
    pub fn setup_type(&self) -> (r: SetupType)
        ensures
            r == self.spec_setup_type(),
    {
        let x: u8 = (self.bmRequestType & 0x60) >> 5;
        if x == 0 {
            SetupType::Standard
        } else if x == 1 {
            SetupType::Class
        } else if x == 2 {
            SetupType::Vendor
        } else {
            SetupType::Reserved
        }
    }

    pub open spec fn spec_setup_recipient(&self) -> SetupRecipient {
        let x = self.bmRequestType & 0x1f;
        if x == 0 {
            SetupRecipient::Device
        } else if x == 1 {
            SetupRecipient::Interface
        } else if x == 2 {
            SetupRecipient::Endpoint
        } else if x == 3 {
            SetupRecipient::Other
        } else {
            SetupRecipient::Unknown
        }
    }

    /// Bits 4 to 0 of `bmRequestType`; values above 3 are `Unknown`.
    pub fn setup_recipient(&self) -> (r: SetupRecipient)
        ensures
            r == self.spec_setup_recipient(),
    {
        let x: u8 = self.bmRequestType & 0x1f;
        if x == 0 {
            SetupRecipient::Device
        } else if x == 1 {
            SetupRecipient::Interface
        } else if x == 2 {
            SetupRecipient::Endpoint
        } else if x == 3 {
            SetupRecipient::Other
        } else {
            SetupRecipient::Unknown
        }
    }
}

/// A descriptor with a fixed layout of bytes on the wire.
pub trait ToBytes: Sized {
    /// The bytes of the descriptor, fields in order, integers low byte first.
    spec fn spec_bytes(&self) -> Seq<u8>;

    fn to_bytes(&self) -> (r: Vec<u8>)
        ensures
            r@ == self.spec_bytes(),
    ;
}

#[allow(non_snake_case)]
#[derive(Copy, Clone, PartialEq, Eq, Structural, Debug)]
pub struct DeviceDescriptor {
    pub bLength: u8,
    pub bDescriptorType: u8,
    pub bcdUSB: u16,
    pub bDeviceClass: u8,
    pub bDeviceSubClass: u8,
    pub bDeviceProtocol: u8,
    pub bMaxPacketSize0: u8,
    pub idVendor: u16,
    pub idProduct: u16,
    pub bcdDevice: u16,
    pub iManufacturer: u8,
    pub iProduct: u8,
    pub iSerialNumber: u8,
    pub bNumConfigurations: u8,
}

impl ToBytes for DeviceDescriptor {
    open spec fn spec_bytes(&self) -> Seq<u8> {
        seq![self.bLength, self.bDescriptorType] + le16(self.bcdUSB) + seq![
            self.bDeviceClass,
            self.bDeviceSubClass,
            self.bDeviceProtocol,
            self.bMaxPacketSize0,
        ] + le16(self.idVendor) + le16(self.idProduct) + le16(self.bcdDevice) + seq![
            self.iManufacturer,
            self.iProduct,
            self.iSerialNumber,
            self.bNumConfigurations,
        ]
    }

    fn to_bytes(&self) -> (r: Vec<u8>) {
        let mut v: Vec<u8> = Vec::new();
        v.push(self.bLength);
        v.push(self.bDescriptorType);
        push_u16(&mut v, self.bcdUSB);
        v.push(self.bDeviceClass);
        v.push(self.bDeviceSubClass);
        v.push(self.bDeviceProtocol);
        v.push(self.bMaxPacketSize0);
        push_u16(&mut v, self.idVendor);
        push_u16(&mut v, self.idProduct);
        push_u16(&mut v, self.bcdDevice);
        v.push(self.iManufacturer);
        v.push(self.iProduct);
        v.push(self.iSerialNumber);
        v.push(self.bNumConfigurations);
        assert(v@ =~= self.spec_bytes());
        v
    }
}

#[allow(non_snake_case)]
#[derive(Copy, Clone, PartialEq, Eq, Structural, Debug)]
pub struct ConfigurationDescriptor {
    pub bLength: u8,
    pub bDescriptorType: u8,
    pub wTotalLength: u16,
    pub bNumInterfaces: u8,
    pub bConfigurationValue: u8,
    pub iConfiguration: u8,
    pub bmAttributes: u8,
    pub bMaxPower: u8,
}

impl ToBytes for ConfigurationDescriptor {
    open spec fn spec_bytes(&self) -> Seq<u8> {
        seq![self.bLength, self.bDescriptorType] + le16(self.wTotalLength) + seq![
            self.bNumInterfaces,
            self.bConfigurationValue,
            self.iConfiguration,
            self.bmAttributes,
            self.bMaxPower,
        ]
    }

    fn to_bytes(&self) -> (r: Vec<u8>) {
        let mut v: Vec<u8> = Vec::new();
        v.push(self.bLength);
        v.push(self.bDescriptorType);
        push_u16(&mut v, self.wTotalLength);
        v.push(self.bNumInterfaces);
        v.push(self.bConfigurationValue);
        v.push(self.iConfiguration);
        v.push(self.bmAttributes);
        v.push(self.bMaxPower);
        assert(v@ =~= self.spec_bytes());
        v
    }
}

#[allow(non_snake_case)]
#[derive(Copy, Clone, PartialEq, Eq, Structural, Debug)]
pub struct InterfaceDescriptor {
    pub bLength: u8,
    pub bDescriptorType: u8,
    pub bInterfaceNumber: u8,
    pub bAlternateSetting: u8,
    pub bNumEndpoints: u8,
    pub bInterfaceClass: u8,
    pub bInterfaceSubClass: u8,
    pub bInterfaceProtocol: u8,
    pub iInterface: u8,
}

impl ToBytes for InterfaceDescriptor {
    open spec fn spec_bytes(&self) -> Seq<u8> {
        seq![
            self.bLength,
            self.bDescriptorType,
            self.bInterfaceNumber,
            self.bAlternateSetting,
            self.bNumEndpoints,
            self.bInterfaceClass,
            self.bInterfaceSubClass,
            self.bInterfaceProtocol,
            self.iInterface,
        ]
    }

    fn to_bytes(&self) -> (r: Vec<u8>) {
        let mut v: Vec<u8> = Vec::new();
        v.push(self.bLength);
        v.push(self.bDescriptorType);
        v.push(self.bInterfaceNumber);
        v.push(self.bAlternateSetting);
        v.push(self.bNumEndpoints);
        v.push(self.bInterfaceClass);
        v.push(self.bInterfaceSubClass);
        v.push(self.bInterfaceProtocol);
        v.push(self.iInterface);
        assert(v@ =~= self.spec_bytes());
        v
    }
}

#[allow(non_snake_case)]
#[derive(Copy, Clone, PartialEq, Eq, Structural, Debug)]
pub struct EndpointDescriptor {
    pub bLength: u8,
    pub bDescriptorType: u8,
    pub bEndpointAddress: u8,
    pub bmAttributes: u8,
    pub wMaxPacketSize: u16,
    pub bInterval: u8,
}

impl ToBytes for EndpointDescriptor {
    open spec fn spec_bytes(&self) -> Seq<u8> {
        seq![self.bLength, self.bDescriptorType, self.bEndpointAddress, self.bmAttributes] + le16(
            self.wMaxPacketSize,
        ) + seq![self.bInterval]
    }

    fn to_bytes(&self) -> (r: Vec<u8>) {
        let mut v: Vec<u8> = Vec::new();
        v.push(self.bLength);
        v.push(self.bDescriptorType);
        v.push(self.bEndpointAddress);
        v.push(self.bmAttributes);
        push_u16(&mut v, self.wMaxPacketSize);
        v.push(self.bInterval);
        assert(v@ =~= self.spec_bytes());
        v
    }
}

/// A string descriptor: its length, its type, and the text as UTF-16LE.
#[allow(non_snake_case)]
pub struct StringDescriptor {
    pub bLength: u8,
    pub bDescriptorType: u8,
    pub bString: Vec<u8>,
}

impl ToBytes for StringDescriptor {
    open spec fn spec_bytes(&self) -> Seq<u8> {
        seq![self.bLength, self.bDescriptorType] + self.bString@
    }

    fn to_bytes(&self) -> (r: Vec<u8>) {
        let mut v: Vec<u8> = Vec::new();
        v.push(self.bLength);
        v.push(self.bDescriptorType);
        push_slice(&mut v, self.bString.as_slice());
        assert(v@ =~= self.spec_bytes());
        v
    }
}

impl StringDescriptor {
    /// The descriptor for `text`, one UTF-16 code unit per byte of it.
    pub open spec fn spec_for_text(text: Seq<u8>) -> Seq<u8> {
        seq![(2 + 2 * text.len()) as u8, DescriptorType::String.spec_code()] + utf16le(text)
    }

    /// Builds the string descriptor for ASCII `text` of at most 31 bytes.
    pub fn for_text(text: &[u8]) -> (r: StringDescriptor)
        requires
            text@.len() <= 31,
        ensures
            r.spec_bytes() == Self::spec_for_text(text@),
            r.bLength == 2 + 2 * text@.len(),
            r.spec_bytes().len() == r.bLength,
    {
        let mut s: Vec<u8> = Vec::new();
        push_utf16le(&mut s, text);
        let r = StringDescriptor {
            bLength: (2 + 2 * text.len()) as u8,
            bDescriptorType: DescriptorType::String.code(),
            bString: s,
        };
        assert(r.spec_bytes() =~= Self::spec_for_text(text@));
        r
    }

    /// The descriptor that lists the language codes `langs`.
    pub open spec fn spec_for_langs(langs: Seq<u16>) -> Seq<u8> {
        seq![(2 + 2 * langs.len()) as u8, DescriptorType::String.spec_code()] + Seq::new(
            2 * langs.len(),
            |i: int| le16(langs[i / 2])[i % 2],
        )
    }

    /// Builds string descriptor zero, the list of language codes.
    pub fn for_langs(langs: &[u16]) -> (r: StringDescriptor)
        requires
            langs@.len() <= 31,
        ensures
            r.spec_bytes() == Self::spec_for_langs(langs@),
            r.spec_bytes().len() == r.bLength,
    {
        let mut s: Vec<u8> = Vec::new();
        let mut i: usize = 0;
        while i < langs.len()
            invariant
                i <= langs.len(),
                s@ == Seq::new(2 * i as nat, |k: int| le16(langs@[k / 2])[k % 2]),
            decreases langs.len() - i,
        {
            push_u16(&mut s, langs[i]);
            i += 1;
            assert(s@ =~= Seq::new(2 * i as nat, |k: int| le16(langs@[k / 2])[k % 2]));
        }
        let r = StringDescriptor {
            bLength: (2 + 2 * langs.len()) as u8,
            bDescriptorType: DescriptorType::String.code(),
            bString: s,
        };
        assert(r.spec_bytes() =~= Self::spec_for_langs(langs@));
        r
    }
}

#[allow(non_snake_case)]
#[derive(Copy, Clone, PartialEq, Eq, Structural, Debug)]
pub struct HIDDescriptor {
    pub bLength: u8,
    pub bDescriptorType: u8,
    pub bcdHID: u16,
    pub bCountryCode: u8,
    pub bNumDescriptors: u8,
    pub bSubDescriptorType: u8,
    pub wSubDescriptorLength: u16,
}

impl ToBytes for HIDDescriptor {
    open spec fn spec_bytes(&self) -> Seq<u8> {
        seq![self.bLength, self.bDescriptorType] + le16(self.bcdHID) + seq![
            self.bCountryCode,
            self.bNumDescriptors,
            self.bSubDescriptorType,
        ] + le16(self.wSubDescriptorLength)
    }

    fn to_bytes(&self) -> (r: Vec<u8>) {
        let mut v: Vec<u8> = Vec::new();
        v.push(self.bLength);
        v.push(self.bDescriptorType);
        push_u16(&mut v, self.bcdHID);
        v.push(self.bCountryCode);
        v.push(self.bNumDescriptors);
        v.push(self.bSubDescriptorType);
        push_u16(&mut v, self.wSubDescriptorLength);
        assert(v@ =~= self.spec_bytes());
        v
    }
}

/// One function section of the Microsoft compatible-ID descriptor: 24 bytes.
#[allow(non_snake_case)]
pub struct MSCompatibleIDDescriptorFunction {
    pub bInterfaceNumber: u8,
    /// Eight bytes of compatible ID.
    pub sCompatibleID: Vec<u8>,
    /// Eight bytes of sub-compatible ID.
    pub sSubCompatibleID: Vec<u8>,
}

/// `n` zero bytes.
pub open spec fn zeros(n: nat) -> Seq<u8> {
    Seq::new(n, |i: int| 0u8)
}

/// Appends `n` zero bytes.
pub fn push_zeros(v: &mut Vec<u8>, n: usize)
    ensures
        final(v)@ == old(v)@ + zeros(n as nat),
{
    let mut i: usize = 0;
    while i < n
        invariant
            i <= n,
            v@ == old(v)@ + zeros(i as nat),
        decreases n - i,
    {
        v.push(0);
        i += 1;
        assert(v@ =~= old(v)@ + zeros(i as nat));
    }
}

impl ToBytes for MSCompatibleIDDescriptorFunction {
    open spec fn spec_bytes(&self) -> Seq<u8> {
        seq![self.bInterfaceNumber, 0u8] + self.sCompatibleID@ + self.sSubCompatibleID@ + zeros(6)
    }

    fn to_bytes(&self) -> (r: Vec<u8>) {
        let mut v: Vec<u8> = Vec::new();
        v.push(self.bInterfaceNumber);
        v.push(0);
        push_slice(&mut v, self.sCompatibleID.as_slice());
        push_slice(&mut v, self.sSubCompatibleID.as_slice());
        push_zeros(&mut v, 6);
        assert(v@ =~= self.spec_bytes());
        v
    }
}

/// The Microsoft compatible-ID descriptor with its two function sections.
#[allow(non_snake_case)]
pub struct MSCompatibleIDDescriptor {
    pub dwLength: u32,
    pub bcdVersion: u16,
    pub wIndex: u16,
    pub bNumSections: u8,
    pub features: (MSCompatibleIDDescriptorFunction, MSCompatibleIDDescriptorFunction),
}

impl ToBytes for MSCompatibleIDDescriptor {
    open spec fn spec_bytes(&self) -> Seq<u8> {
        le32(self.dwLength) + le16(self.bcdVersion) + le16(self.wIndex) + seq![self.bNumSections]
            + zeros(7) + self.features.0.spec_bytes() + self.features.1.spec_bytes()
    }

    fn to_bytes(&self) -> (r: Vec<u8>) {
        let mut v: Vec<u8> = Vec::new();
        push_u32(&mut v, self.dwLength);
        push_u16(&mut v, self.bcdVersion);
        push_u16(&mut v, self.wIndex);
        v.push(self.bNumSections);
        push_zeros(&mut v, 7);
        let f0 = self.features.0.to_bytes();
        push_slice(&mut v, f0.as_slice());
        let f1 = self.features.1.to_bytes();
        push_slice(&mut v, f1.as_slice());
        assert(v@ =~= self.spec_bytes());
        v
    }
}

/// One property of the Microsoft extended-properties descriptor. Name and
/// data are ASCII text, each with its terminating zero byte.
#[allow(non_snake_case)]
pub struct MSPropertiesOSDescriptorFeature {
    pub dwPropertyDataType: u32,
    pub bPropertyName: Vec<u8>,
    pub bPropertyData: Vec<u8>,
}

impl MSPropertiesOSDescriptorFeature {
    /// Length of the property section: 14 bytes of fixed fields and both
    /// texts in UTF-16.
    pub open spec fn spec_len(&self) -> nat {
        14 + 2 * self.bPropertyName@.len() + 2 * self.bPropertyData@.len()
    }

    /// The texts are short enough for the name's 16-bit length field.
    pub open spec fn wf(&self) -> bool {
        self.bPropertyName@.len() <= 0x7fff && self.bPropertyData@.len() <= 0x3fff_ffff
    }

    /// The bytes of the property section.
    pub open spec fn spec_bytes(&self) -> Seq<u8> {
        le32(self.spec_len() as u32) + le32(self.dwPropertyDataType) + le16(
            (2 * self.bPropertyName@.len()) as u16,
        ) + utf16le(self.bPropertyName@) + le32((2 * self.bPropertyData@.len()) as u32) + utf16le(
            self.bPropertyData@,
        )
    }

    pub fn len(&self) -> (n: usize)
        requires
            self.wf(),
        ensures
            n == self.spec_len(),
    {
        14 + self.name_len() + self.data_len()
    }

    /// Length of the name in UTF-16.
    pub fn name_len(&self) -> (n: usize)
        requires
            self.wf(),
        ensures
            n == 2 * self.bPropertyName@.len(),
    {
        self.bPropertyName.len() * 2
    }

    /// Length of the data in UTF-16.
    pub fn data_len(&self) -> (n: usize)
        requires
            self.wf(),
        ensures
            n == 2 * self.bPropertyData@.len(),
    {
        self.bPropertyData.len() * 2
    }

    /// Appends the property section to `buf`.
    pub fn write_to_buf(&self, buf: &mut Vec<u8>)
        requires
            self.wf(),
        ensures
            final(buf)@ == old(buf)@ + self.spec_bytes(),
    {
        let len: u32 = self.len() as u32;
        let name_len: u16 = self.name_len() as u16;
        let data_len: u32 = self.data_len() as u32;
        push_u32(buf, len);
        push_u32(buf, self.dwPropertyDataType);
        push_u16(buf, name_len);
        push_utf16le(buf, self.bPropertyName.as_slice());
        push_u32(buf, data_len);
        push_utf16le(buf, self.bPropertyData.as_slice());
        assert(buf@ =~= old(buf)@ + self.spec_bytes());
    }
}

/// The Microsoft extended-properties descriptor with its one property.
#[allow(non_snake_case)]
pub struct MSPropertiesOSDescriptor {
    pub bcdVersion: u16,
    pub wIndex: u16,
    pub wCount: u16,
    pub features: MSPropertiesOSDescriptorFeature,
}

impl MSPropertiesOSDescriptor {
    /// Total length: the ten header bytes and the property section.
    pub open spec fn spec_len(&self) -> nat {
        10 + self.features.spec_len()
    }

    /// The bytes of the descriptor.
    pub open spec fn spec_bytes(&self) -> Seq<u8> {
        le32(self.spec_len() as u32) + le16(self.bcdVersion) + le16(self.wIndex) + le16(self.wCount)
            + self.features.spec_bytes()
    }

    pub fn len(&self) -> (n: usize)
        requires
            self.features.wf(),
        ensures
            n == self.spec_len(),
    {
        10 + self.features.len()
    }

    /// Appends the descriptor to `buf`.
    pub fn write_to_buf(&self, buf: &mut Vec<u8>)
        requires
            self.features.wf(),
        ensures
            final(buf)@ == old(buf)@ + self.spec_bytes(),
    {
        let len: u32 = self.len() as u32;
        push_u32(buf, len);
        push_u16(buf, self.bcdVersion);
        push_u16(buf, self.wIndex);
        push_u16(buf, self.wCount);
        self.features.write_to_buf(buf);
        assert(buf@ =~= old(buf)@ + self.spec_bytes());
    }
}

} // verus!
