//! The descriptors that the device reports.

use vstd::prelude::*;
use super::packets::{
    ConfigurationDescriptor, DeviceDescriptor, EndpointDescriptor, HIDDescriptor,
    InterfaceDescriptor, MSCompatibleIDDescriptor, MSCompatibleIDDescriptorFunction,
    MSPropertiesOSDescriptor, MSPropertiesOSDescriptorFeature, ToBytes,
};
use crate::bytes::push_slice;

verus! {

pub const VENDOR_ID: u16 = 0x1209;

pub const PRODUCT_ID: u16 = 0xFF50;

pub const DEVICE_ID: u16 = 0x0001;

/// The language code of the string descriptors: English (United States).
pub const STRING_LANG: u16 = 0x0409;

/// Index of the Microsoft OS string descriptor.
pub const STRING_MOS_INDEX: u8 = 0xEE;

/// Length of the HID report descriptor.
pub const DAP1_HID_REPORT_LENGTH: u16 = 32;

/// Total length of the configuration descriptor with all that follows it.
pub const CONFIGURATION_TOTAL_LENGTH: u16 = 94;

/// Manufacturer name.
pub open spec fn spec_string_mfn() -> Seq<u8> {
    seq![65, 71, 71]
}

pub fn string_mfn() -> (r: Vec<u8>)
    ensures
        r@ == spec_string_mfn(),
        r@.len() == 3,
{
    let r: Vec<u8> = vec![65, 71, 71];
    assert(r@ =~= spec_string_mfn());
    r
}

/// Product name.
pub open spec fn spec_string_prd() -> Seq<u8> {
    seq![70, 70, 80, 32, 114, 49, 32, 119, 105, 116, 104, 32, 67, 77, 83, 73, 83, 45, 68, 65, 80, 32, 83, 117, 112, 112, 111, 114, 116]
}

pub fn string_prd() -> (r: Vec<u8>)
    ensures
        r@ == spec_string_prd(),
        r@.len() == 29,
{
    let r: Vec<u8> = vec![70, 70, 80, 32, 114, 49, 32, 119, 105, 116, 104, 32, 67, 77, 83, 73, 83, 45, 68, 65, 80, 32, 83, 117, 112, 112, 111, 114, 116];
    assert(r@ =~= spec_string_prd());
    r
}

/// Name of the SPI interface.
pub open spec fn spec_string_if_spi() -> Seq<u8> {
    seq![70, 70, 80, 32, 83, 80, 73, 32, 73, 110, 116, 101, 114, 102, 97, 99, 101]
}

pub fn string_if_spi() -> (r: Vec<u8>)
    ensures
        r@ == spec_string_if_spi(),
        r@.len() == 17,
{
    let r: Vec<u8> = vec![70, 70, 80, 32, 83, 80, 73, 32, 73, 110, 116, 101, 114, 102, 97, 99, 101];
    assert(r@ =~= spec_string_if_spi());
    r
}

/// Name of the CMSIS-DAP v1 interface.
pub open spec fn spec_string_if_dap1() -> Seq<u8> {
    seq![70, 70, 80, 32, 67, 77, 83, 73, 83, 45, 68, 65, 80, 32, 118, 49, 32, 73, 110, 116, 101, 114, 102, 97, 99, 101]
}

pub fn string_if_dap1() -> (r: Vec<u8>)
    ensures
        r@ == spec_string_if_dap1(),
        r@.len() == 26,
{
    let r: Vec<u8> = vec![70, 70, 80, 32, 67, 77, 83, 73, 83, 45, 68, 65, 80, 32, 118, 49, 32, 73, 110, 116, 101, 114, 102, 97, 99, 101];
    assert(r@ =~= spec_string_if_dap1());
    r
}

/// Signature of the Microsoft OS string descriptor; its last character is the vendor request code.
pub open spec fn spec_string_mos() -> Seq<u8> {
    seq![77, 83, 70, 84, 49, 48, 48, 65]
}

pub fn string_mos() -> (r: Vec<u8>)
    ensures
        r@ == spec_string_mos(),
        r@.len() == 8,
{
    let r: Vec<u8> = vec![77, 83, 70, 84, 49, 48, 48, 65];
    assert(r@ =~= spec_string_mos());
    r
}

/// Name of the device-interface GUID property, with its terminator.
pub open spec fn spec_string_guid_name() -> Seq<u8> {
    seq![68, 101, 118, 105, 99, 101, 73, 110, 116, 101, 114, 102, 97, 99, 101, 71, 85, 73, 68, 0]
}

pub fn string_guid_name() -> (r: Vec<u8>)
    ensures
        r@ == spec_string_guid_name(),
        r@.len() == 20,
{
    let r: Vec<u8> = vec![68, 101, 118, 105, 99, 101, 73, 110, 116, 101, 114, 102, 97, 99, 101, 71, 85, 73, 68, 0];
    assert(r@ =~= spec_string_guid_name());
    r
}

/// The device-interface GUID, with its terminator.
pub open spec fn spec_string_guid_data() -> Seq<u8> {
    seq![123, 67, 68, 66, 51, 66, 53, 65, 68, 45, 50, 57, 51, 66, 45, 52, 54, 54, 51, 45, 65, 65, 51, 54, 45, 49, 65, 65, 69, 52, 54, 52, 54, 51, 55, 55, 54, 125, 0]
}

pub fn string_guid_data() -> (r: Vec<u8>)
    ensures
        r@ == spec_string_guid_data(),
        r@.len() == 39,
{
    let r: Vec<u8> = vec![123, 67, 68, 66, 51, 66, 53, 65, 68, 45, 50, 57, 51, 66, 45, 52, 54, 54, 51, 45, 65, 65, 51, 54, 45, 49, 65, 65, 69, 52, 54, 52, 54, 51, 55, 55, 54, 125, 0];
    assert(r@ =~= spec_string_guid_data());
    r
}

/// The compatible ID that binds WinUSB, padded to eight bytes.
pub open spec fn spec_string_winusb() -> Seq<u8> {
    seq![87, 73, 78, 85, 83, 66, 0, 0]
}

pub fn string_winusb() -> (r: Vec<u8>)
    ensures
        r@ == spec_string_winusb(),
        r@.len() == 8,
{
    let r: Vec<u8> = vec![87, 73, 78, 85, 83, 66, 0, 0];
    assert(r@ =~= spec_string_winusb());
    r
}

/// The HID report descriptor of the CMSIS-DAP v1 interface: 64-byte vendor
/// input and output reports.
pub open spec fn spec_dap1_hid_report() -> Seq<u8> {
    seq![0x06, 0x00, 0xFF, 0x09, 0x01, 0xA1, 0x01, 0x15, 0x00, 0x25, 0xFF, 0x75, 0x08, 0x95, 0x40, 0x09, 0x01, 0x81, 0x02, 0x95, 0x40, 0x09, 0x01, 0x91, 0x02, 0x95, 0x01, 0x09, 0x01, 0xB1, 0x02, 0xC0]
}

pub fn dap1_hid_report() -> (r: Vec<u8>)
    ensures
        r@ == spec_dap1_hid_report(),
        r@.len() == 32,
{
    let r: Vec<u8> = vec![0x06, 0x00, 0xFF, 0x09, 0x01, 0xA1, 0x01, 0x15, 0x00, 0x25, 0xFF, 0x75, 0x08, 0x95, 0x40, 0x09, 0x01, 0x81, 0x02, 0x95, 0x40, 0x09, 0x01, 0x91, 0x02, 0x95, 0x01, 0x09, 0x01, 0xB1, 0x02, 0xC0];
    assert(r@ =~= spec_dap1_hid_report());
    r
}

/// The device descriptor.
pub open spec fn spec_device_descriptor() -> DeviceDescriptor {
    DeviceDescriptor {
        bLength: 18,
        bDescriptorType: 1,
        bcdUSB: 0x0200,
        bDeviceClass: 0,
        bDeviceSubClass: 0,
        bDeviceProtocol: 0,
        bMaxPacketSize0: 64,
        idVendor: VENDOR_ID,
        idProduct: PRODUCT_ID,
        bcdDevice: DEVICE_ID,
        iManufacturer: 1,
        iProduct: 2,
        iSerialNumber: 3,
        bNumConfigurations: 1,
    }
}

pub fn device_descriptor() -> (r: DeviceDescriptor)
    ensures
        r == spec_device_descriptor(),
{
    DeviceDescriptor {
        bLength: 18,
        bDescriptorType: 1,
        bcdUSB: 0x0200,
        bDeviceClass: 0,
        bDeviceSubClass: 0,
        bDeviceProtocol: 0,
        bMaxPacketSize0: 64,
        idVendor: VENDOR_ID,
        idProduct: PRODUCT_ID,
        bcdDevice: DEVICE_ID,
        iManufacturer: 1,
        iProduct: 2,
        iSerialNumber: 3,
        bNumConfigurations: 1,
    }
}

/// The configuration descriptor: one configuration of three interfaces, bus powered, 100 mA.
pub open spec fn spec_configuration_descriptor() -> ConfigurationDescriptor {
    ConfigurationDescriptor {
        bLength: 9,
        bDescriptorType: 2,
        wTotalLength: CONFIGURATION_TOTAL_LENGTH,
        bNumInterfaces: 3,
        bConfigurationValue: 1,
        iConfiguration: 0,
        bmAttributes: 0x80,
        bMaxPower: 50,
    }
}

pub fn configuration_descriptor() -> (r: ConfigurationDescriptor)
    ensures
        r == spec_configuration_descriptor(),
{
    ConfigurationDescriptor {
        bLength: 9,
        bDescriptorType: 2,
        wTotalLength: CONFIGURATION_TOTAL_LENGTH,
        bNumInterfaces: 3,
        bConfigurationValue: 1,
        iConfiguration: 0,
        bmAttributes: 0x80,
        bMaxPower: 50,
    }
}

/// Interface 0: the vendor-class SPI interface.
pub open spec fn spec_spi_interface_descriptor() -> InterfaceDescriptor {
    InterfaceDescriptor {
        bLength: 9,
        bDescriptorType: 4,
        bInterfaceNumber: 0,
        bAlternateSetting: 0,
        bNumEndpoints: 2,
        bInterfaceClass: 0xFF,
        bInterfaceSubClass: 0,
        bInterfaceProtocol: 0,
        iInterface: 4,
    }
}

pub fn spi_interface_descriptor() -> (r: InterfaceDescriptor)
    ensures
        r == spec_spi_interface_descriptor(),
{
    InterfaceDescriptor {
        bLength: 9,
        bDescriptorType: 4,
        bInterfaceNumber: 0,
        bAlternateSetting: 0,
        bNumEndpoints: 2,
        bInterfaceClass: 0xFF,
        bInterfaceSubClass: 0,
        bInterfaceProtocol: 0,
        iInterface: 4,
    }
}

/// Interface 1: CMSIS-DAP v1, a HID interface.
pub open spec fn spec_dap1_interface_descriptor() -> InterfaceDescriptor {
    InterfaceDescriptor {
        bLength: 9,
        bDescriptorType: 4,
        bInterfaceNumber: 1,
        bAlternateSetting: 0,
        bNumEndpoints: 2,
        bInterfaceClass: 0x03,
        bInterfaceSubClass: 0,
        bInterfaceProtocol: 0,
        iInterface: 5,
    }
}

pub fn dap1_interface_descriptor() -> (r: InterfaceDescriptor)
    ensures
        r == spec_dap1_interface_descriptor(),
{
    InterfaceDescriptor {
        bLength: 9,
        bDescriptorType: 4,
        bInterfaceNumber: 1,
        bAlternateSetting: 0,
        bNumEndpoints: 2,
        bInterfaceClass: 0x03,
        bInterfaceSubClass: 0,
        bInterfaceProtocol: 0,
        iInterface: 5,
    }
}

/// Interface 2: CMSIS-DAP v2, a vendor-class interface.
pub open spec fn spec_dap2_interface_descriptor() -> InterfaceDescriptor {
    InterfaceDescriptor {
        bLength: 9,
        bDescriptorType: 4,
        bInterfaceNumber: 2,
        bAlternateSetting: 0,
        bNumEndpoints: 3,
        bInterfaceClass: 0xFF,
        bInterfaceSubClass: 0,
        bInterfaceProtocol: 0,
        iInterface: 6,
    }
}

pub fn dap2_interface_descriptor() -> (r: InterfaceDescriptor)
    ensures
        r == spec_dap2_interface_descriptor(),
{
    InterfaceDescriptor {
        bLength: 9,
        bDescriptorType: 4,
        bInterfaceNumber: 2,
        bAlternateSetting: 0,
        bNumEndpoints: 3,
        bInterfaceClass: 0xFF,
        bInterfaceSubClass: 0,
        bInterfaceProtocol: 0,
        iInterface: 6,
    }
}

/// The HID descriptor of the CMSIS-DAP v1 interface.
pub open spec fn spec_dap1_hid_descriptor() -> HIDDescriptor {
    HIDDescriptor {
        bLength: 9,
        bDescriptorType: 0x21,
        bcdHID: 0x0111,
        bCountryCode: 0,
        bNumDescriptors: 1,
        bSubDescriptorType: 0x22,
        wSubDescriptorLength: DAP1_HID_REPORT_LENGTH,
    }
}

pub fn dap1_hid_descriptor() -> (r: HIDDescriptor)
    ensures
        r == spec_dap1_hid_descriptor(),
{
    HIDDescriptor {
        bLength: 9,
        bDescriptorType: 0x21,
        bcdHID: 0x0111,
        bCountryCode: 0,
        bNumDescriptors: 1,
        bSubDescriptorType: 0x22,
        wSubDescriptorLength: DAP1_HID_REPORT_LENGTH,
    }
}

/// The descriptor of an endpoint with 64-byte packets.
pub open spec fn spec_endpoint_descriptor(address: u8, attributes: u8, interval: u8)
    -> EndpointDescriptor {
    EndpointDescriptor {
        bLength: 7,
        bDescriptorType: 5,
        bEndpointAddress: address,
        bmAttributes: attributes,
        wMaxPacketSize: 64,
        bInterval: interval,
    }
}

pub fn endpoint_descriptor(address: u8, attributes: u8, interval: u8) -> (r: EndpointDescriptor)
    ensures
        r == spec_endpoint_descriptor(address, attributes, interval),
{
    EndpointDescriptor {
        bLength: 7,
        bDescriptorType: 5,
        bEndpointAddress: address,
        bmAttributes: attributes,
        wMaxPacketSize: 64,
        bInterval: interval,
    }
}

/// The configuration descriptor followed by all of its sub-descriptors: the
/// SPI interface with its bulk IN and OUT endpoints (1), the CMSIS-DAP v1
/// interface with its HID descriptor and interrupt IN and OUT endpoints (2),
/// and the CMSIS-DAP v2 interface with its bulk OUT and IN endpoints (3) and
/// the bulk IN endpoint of the SWO stream (4).
pub open spec fn spec_configuration_bytes() -> Seq<u8> {
    spec_configuration_descriptor().spec_bytes() + spec_spi_interface_descriptor().spec_bytes()
        + spec_endpoint_descriptor(0x81, 2, 10).spec_bytes() + spec_endpoint_descriptor(
        0x01,
        2,
        10,
    ).spec_bytes() + spec_dap1_interface_descriptor().spec_bytes()
        + spec_dap1_hid_descriptor().spec_bytes() + spec_endpoint_descriptor(
        0x82,
        3,
        1,
    ).spec_bytes() + spec_endpoint_descriptor(0x02, 3, 1).spec_bytes()
        + spec_dap2_interface_descriptor().spec_bytes() + spec_endpoint_descriptor(
        0x03,
        2,
        10,
    ).spec_bytes() + spec_endpoint_descriptor(0x83, 2, 10).spec_bytes() + spec_endpoint_descriptor(
        0x84,
        2,
        10,
    ).spec_bytes()
}

fn push_descriptor<D: ToBytes>(buf: &mut Vec<u8>, d: &D)
    ensures
        final(buf)@ == old(buf)@ + d.spec_bytes(),
{
    let bytes = d.to_bytes();
    push_slice(buf, bytes.as_slice());
}

/// Assembles the configuration descriptor and its sub-descriptors into one
/// contiguous buffer.
pub fn configuration_bytes() -> (r: Vec<u8>)
    ensures
        r@ == spec_configuration_bytes(),
        r@.len() == CONFIGURATION_TOTAL_LENGTH,
{
    let mut buf: Vec<u8> = Vec::new();
    push_descriptor(&mut buf, &configuration_descriptor());
    push_descriptor(&mut buf, &spi_interface_descriptor());
    push_descriptor(&mut buf, &endpoint_descriptor(0x81, 2, 10));
    push_descriptor(&mut buf, &endpoint_descriptor(0x01, 2, 10));
    push_descriptor(&mut buf, &dap1_interface_descriptor());
    push_descriptor(&mut buf, &dap1_hid_descriptor());
    push_descriptor(&mut buf, &endpoint_descriptor(0x82, 3, 1));
    push_descriptor(&mut buf, &endpoint_descriptor(0x02, 3, 1));
    push_descriptor(&mut buf, &dap2_interface_descriptor());
    push_descriptor(&mut buf, &endpoint_descriptor(0x03, 2, 10));
    push_descriptor(&mut buf, &endpoint_descriptor(0x83, 2, 10));
    push_descriptor(&mut buf, &endpoint_descriptor(0x84, 2, 10));
    assert(buf@ =~= spec_configuration_bytes());
    buf
}

/// The compatible-ID descriptor: WinUSB for interfaces 0 and 2.
pub open spec fn spec_ms_compatible_id_bytes() -> Seq<u8> {
    crate::bytes::le32(64) + crate::bytes::le16(0x0100) + crate::bytes::le16(4) + seq![2u8]
        + super::packets::zeros(7) + (seq![0u8, 0u8] + spec_string_winusb()
        + super::packets::zeros(8) + super::packets::zeros(6)) + (seq![2u8, 0u8]
        + spec_string_winusb() + super::packets::zeros(8) + super::packets::zeros(6))
}

pub fn ms_compatible_id_descriptor() -> (r: MSCompatibleIDDescriptor)
    ensures
        r.spec_bytes() == spec_ms_compatible_id_bytes(),
        r.spec_bytes().len() == 64,
{
    let mut z0: Vec<u8> = Vec::new();
    super::packets::push_zeros(&mut z0, 8);
    let mut z1: Vec<u8> = Vec::new();
    super::packets::push_zeros(&mut z1, 8);
    let r = MSCompatibleIDDescriptor {
        dwLength: 64,
        bcdVersion: 0x0100,
        wIndex: 4,
        bNumSections: 2,
        features: (
            MSCompatibleIDDescriptorFunction {
                bInterfaceNumber: 0,
                sCompatibleID: string_winusb(),
                sSubCompatibleID: z0,
            },
            MSCompatibleIDDescriptorFunction {
                bInterfaceNumber: 2,
                sCompatibleID: string_winusb(),
                sSubCompatibleID: z1,
            },
        ),
    };
    assert(r.features.0.spec_bytes() =~= seq![0u8, 0u8] + spec_string_winusb()
        + super::packets::zeros(8) + super::packets::zeros(6));
    assert(r.features.1.spec_bytes() =~= seq![2u8, 0u8] + spec_string_winusb()
        + super::packets::zeros(8) + super::packets::zeros(6));
    assert(r.spec_bytes() =~= spec_ms_compatible_id_bytes());
    r
}

/// The extended-properties descriptor of interface 2: the device-interface
/// GUID as a `REG_SZ` property.
pub fn if2_ms_properties_os_descriptor() -> (r: MSPropertiesOSDescriptor)
    ensures
        r.bcdVersion == 0x0100,
        r.wIndex == 5,
        r.wCount == 1,
        r.features.dwPropertyDataType == 1,
        r.features.bPropertyName@ == spec_string_guid_name(),
        r.features.bPropertyData@ == spec_string_guid_data(),
        r.features.wf(),
        r.spec_len() == 142,
{
    MSPropertiesOSDescriptor {
        bcdVersion: 0x0100,
        wIndex: 5,
        wCount: 1,
        features: MSPropertiesOSDescriptorFeature {
            dwPropertyDataType: 1,
            bPropertyName: string_guid_name(),
            bPropertyData: string_guid_data(),
        },
    }
}

} // verus!
