//! What decoding and encoding mean in terms of the bytes on the wire.
//!
//! Each law below states a result by the raw bytes of the descriptor or by
//! the numbers of the USB standard, with descriptor offsets counted from the
//! `bLength` byte.
use crate::requests::descriptor::{
    decodes_to, head_decodable, remote_wakeup_bit, self_powered_bit, DescriptorResult,
};
use crate::requests::endpoint::{
    address_direction, endpoint_number, endpoint_sync, endpoint_transfer, endpoint_usage,
    EndpointNumber, EndpointSync, EndpointTransfer, EndpointUsage,
};
use crate::requests::setup::{raw_request_of, GetDescriptor, Request};
use crate::requests::endpoint::Direction;
use vstd::std_specs::convert::FromSpec;
use vstd::prelude::*;

verus! {

/// A device descriptor (type 1, `bLength` at least 18) decodes to its fields
/// at the offsets of the USB standard: bcdUSB at 2..4, the class triple at
/// 4, 5, 6, bMaxPacketSize0 at 7, idVendor at 8..10, idProduct at 10..12,
/// bcdDevice at 12..14, the three string indices at 14, 15, 16 and
/// bNumConfigurations at 17; 16-bit fields are little endian.
pub proof fn law_device_descriptor(buf: Seq<u8>, r: DescriptorResult)
    requires
        buf.len() >= 2,
        buf[1] == 1,
        18 <= buf[0] <= buf.len(),
        decodes_to(buf, r),
    ensures
        r matches DescriptorResult::Device(d) && {
            &&& d.usb == buf[2] + 256 * buf[3]
            &&& d.class == buf[4]
            &&& d.subclass == buf[5]
            &&& d.protocol == buf[6]
            &&& d.max_packet_size_0 == buf[7]
            &&& d.vendor == buf[8] + 256 * buf[9]
            &&& d.product == buf[10] + 256 * buf[11]
            &&& d.device == buf[12] + 256 * buf[13]
            &&& d.index_manufacturer == buf[14]
            &&& d.index_product == buf[15]
            &&& d.index_serial_number == buf[16]
            &&& d.num_configurations == buf[17]
        },
{
}

/// A configuration descriptor (type 2, `bLength` at least 9) decodes to
/// wTotalLength at 2..4 (little endian), bNumInterfaces at 4,
/// bConfigurationValue at 5 (which is also the value that
/// SET_CONFIGURATION takes), bmAttributes at 7 and bMaxPower at 8.
pub proof fn law_configuration_descriptor(buf: Seq<u8>, r: DescriptorResult)
    requires
        buf.len() >= 2,
        buf[1] == 2,
        9 <= buf[0] <= buf.len(),
        decodes_to(buf, r),
    ensures
        r matches DescriptorResult::Configuration(c) && {
            &&& c.total_length == buf[2] + 256 * buf[3]
            &&& c.num_interfaces == buf[4]
            &&& c.configuration_value == buf[5]
            &&& c.index_configuration == buf[5]
            &&& c.attributes.0 == buf[7]
            &&& c.max_power == buf[8]
        },
{
}

/// An interface descriptor (type 4, `bLength` at least 9) decodes to
/// bInterfaceNumber at 2, bAlternateSetting at 3, bNumEndpoints at 4, the
/// class triple at 5, 6, 7 and iInterface at 8.
pub proof fn law_interface_descriptor(buf: Seq<u8>, r: DescriptorResult)
    requires
        buf.len() >= 2,
        buf[1] == 4,
        9 <= buf[0] <= buf.len(),
        decodes_to(buf, r),
    ensures
        r matches DescriptorResult::Interface(i) && {
            &&& i.number == buf[2]
            &&& i.alternate_setting == buf[3]
            &&& i.num_endpoints == buf[4]
            &&& i.class == buf[5]
            &&& i.subclass == buf[6]
            &&& i.protocol == buf[7]
            &&& i.index == buf[8]
        },
{
}

/// An endpoint descriptor (type 5, `bLength` at least 7) decodes to
/// bEndpointAddress at 2, bmAttributes at 3, wMaxPacketSize at 4..6 (little
/// endian, both bytes) and bInterval at 6.
pub proof fn law_endpoint_descriptor(buf: Seq<u8>, r: DescriptorResult)
    requires
        buf.len() >= 2,
        buf[1] == 5,
        7 <= buf[0] <= buf.len(),
        decodes_to(buf, r),
    ensures
        r matches DescriptorResult::Endpoint(e) && {
            &&& e.address.0 == buf[2]
            &&& e.attributes.0 == buf[3]
            &&& e.max_packet_size == buf[4] + 256 * buf[5]
            &&& e.interval == buf[6]
        },
{
}

/// A string descriptor (type 3) decodes to one UTF-16 code unit for each
/// whole pair of bytes after the header: unit `i` is the little-endian word
/// at offsets `2 + 2 * i` and `3 + 2 * i`.
pub proof fn law_string_descriptor(buf: Seq<u8>, r: DescriptorResult)
    requires
        buf.len() >= 2,
        buf[1] == 3,
        2 <= buf[0] <= buf.len(),
        decodes_to(buf, r),
    ensures
        r matches DescriptorResult::String(s) && {
            &&& s@.len() == (buf[0] - 2) / 2
            &&& forall|i: int|
                0 <= i < s@.len() ==> #[trigger] s@[i] == buf[2 + 2 * i] + 256 * buf[3 + 2 * i]
        },
{
}

/// A descriptor of any other type hands out its type code and exactly the
/// bytes after its header, up to its `bLength`.
pub proof fn law_other_descriptor(buf: Seq<u8>, r: DescriptorResult)
    requires
        buf.len() >= 2,
        !(1 <= buf[1] <= 5),
        2 <= buf[0] <= buf.len(),
        decodes_to(buf, r),
    ensures
        buf[1] == 0x21 ==> (r matches DescriptorResult::Hid { data } && data@.len() == buf[0] - 2
            && forall|i: int| 0 <= i < data@.len() ==> #[trigger] data@[i] == buf[2 + i]),
        buf[1] != 0x21 ==> (r matches DescriptorResult::Unknown { ty, data } && ty == buf[1]
            && data@.len() == buf[0] - 2 && forall|i: int|
            0 <= i < data@.len() ==> #[trigger] data@[i] == buf[2 + i]),
{
}

/// A length byte below 2 is invalid, and a length past the end of the
/// buffer is truncated, whatever the type.
pub proof fn law_malformed_descriptor(buf: Seq<u8>, r: DescriptorResult)
    requires
        buf.len() >= 1,
        decodes_to(buf, r),
    ensures
        buf[0] < 2 ==> (r is Invalid),
        buf[0] > buf.len() ==> r == (DescriptorResult::Truncated { length: buf[0] }),
{
}

/// GET_DESCRIPTOR is a standard device-to-host request (`bmRequestType`
/// 0x80, `bRequest` 6) with `wIndex` 0 for every descriptor type, the
/// descriptor type in the high byte of `wValue` and the index in the low
/// byte, and the caller's buffer for the data stage.
pub proof fn law_get_descriptor_request<B>(ty: GetDescriptor, buffer: B)
    ensures
        raw_request_of(Request::GetDescriptor { ty, buffer }).request_type == 0x80,
        raw_request_of(Request::GetDescriptor { ty, buffer }).direction == Direction::In,
        raw_request_of(Request::GetDescriptor { ty, buffer }).request == 6,
        raw_request_of(Request::GetDescriptor { ty, buffer }).index == 0,
        raw_request_of(Request::GetDescriptor { ty, buffer }).buffer == Some(buffer),
        raw_request_of(Request::GetDescriptor { ty, buffer }).value == (match ty {
            GetDescriptor::Device => 0x0100int,
            GetDescriptor::Configuration { index } => 0x0200 + index,
            GetDescriptor::String { index } => 0x0300 + index,
        }),
{
}

/// SET_CONFIGURATION is a standard host-to-device request
/// (`bmRequestType` 0, `bRequest` 9) with the configuration value in
/// `wValue`, `wIndex` 0 and no data stage.
pub proof fn law_set_configuration_request<B>(value: u8)
    ensures
        raw_request_of(Request::<B>::SetConfiguration { value }).request_type == 0,
        raw_request_of(Request::<B>::SetConfiguration { value }).direction == Direction::Out,
        raw_request_of(Request::<B>::SetConfiguration { value }).request == 9,
        raw_request_of(Request::<B>::SetConfiguration { value }).value == value,
        raw_request_of(Request::<B>::SetConfiguration { value }).index == 0,
        raw_request_of(Request::<B>::SetConfiguration { value }).buffer == Option::<B>::None,
{
}

/// The top bit of an endpoint address is the direction: addresses from
/// 0x80 up are device-to-host.
pub proof fn law_endpoint_direction(raw: u8)
    ensures
        address_direction(raw) == (if raw >= 128 {
            Direction::In
        } else {
            Direction::Out
        }),
{
    assert((raw & 0x80 == 0) <==> raw < 128) by (bit_vector);
}

/// The endpoint number is the address modulo 16, and converting it to
/// `usize` gives that number.
pub proof fn law_endpoint_number(raw: u8)
    requires
        raw % 16 != 0,
    ensures
        endpoint_number(raw).spec_index() == raw % 16,
        <usize as FromSpec<EndpointNumber>>::from_spec(endpoint_number(raw)) == raw % 16,
{
    assert(raw & 0xf == raw % 16) by (bit_vector);
}

/// The transfer type is the attribute byte modulo 4; the synchronisation
/// type the byte divided by 4, modulo 4; the usage type the byte divided by
/// 16, modulo 4, in the order of the USB standard.
pub proof fn law_endpoint_attributes(raw: u8)
    ensures
        raw % 4 == 0 ==> endpoint_transfer(raw) == EndpointTransfer::Control,
        raw % 4 == 1 ==> endpoint_transfer(raw) == EndpointTransfer::Isoch,
        raw % 4 == 2 ==> endpoint_transfer(raw) == EndpointTransfer::Bulk,
        raw % 4 == 3 ==> endpoint_transfer(raw) == EndpointTransfer::Interrupt,
        (raw / 4) % 4 == 0 ==> endpoint_sync(raw) == EndpointSync::NoSync,
        (raw / 4) % 4 == 1 ==> endpoint_sync(raw) == EndpointSync::Async,
        (raw / 4) % 4 == 2 ==> endpoint_sync(raw) == EndpointSync::Adapt,
        (raw / 4) % 4 == 3 ==> endpoint_sync(raw) == EndpointSync::Sync,
        (raw / 16) % 4 == 0 ==> endpoint_usage(raw) == EndpointUsage::Data,
        (raw / 16) % 4 == 1 ==> endpoint_usage(raw) == EndpointUsage::Feedback,
        (raw / 16) % 4 == 2 ==> endpoint_usage(raw) == EndpointUsage::Implicit,
{
    assert(raw & 3 == raw % 4) by (bit_vector);
    assert((raw >> 2u8) & 3 == (raw / 4) % 4) by (bit_vector);
    assert((raw >> 4u8) & 3 == (raw / 16) % 4) by (bit_vector);
}

/// A configuration is self-powered when bit 6 of its attributes is set and
/// can wake the host when bit 5 is.
pub proof fn law_configuration_attribute_bits(raw: u8)
    ensures
        self_powered_bit(raw) <==> (raw / 64) % 2 == 1,
        remote_wakeup_bit(raw) <==> (raw / 32) % 2 == 1,
{
    assert((raw & 0x40 != 0) <==> (raw / 64) % 2 == 1) by (bit_vector);
    assert((raw & 0x20 != 0) <==> (raw / 32) % 2 == 1) by (bit_vector);
}

/// A descriptor as long as the USB standard makes it for its type (18 bytes
/// for a device, 9 for a configuration or an interface, 7 for an endpoint,
/// the header for any other type) can be decoded, and so can any buffer
/// whose first length byte is invalid or runs past the end.
pub proof fn law_standard_lengths_decode(buf: Seq<u8>)
    requires
        buf.len() >= 2 && 2 <= buf[0] <= buf.len() ==> {
            &&& buf[1] == 1 ==> buf[0] >= 18
            &&& buf[1] == 2 ==> buf[0] >= 9
            &&& buf[1] == 4 ==> buf[0] >= 9
            &&& buf[1] == 5 ==> buf[0] >= 7
        },
    ensures
        head_decodable(buf),
{
}

} // verus!
