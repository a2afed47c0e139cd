//! Decoding of standard USB descriptors from the bytes that a device sends.
//!
//! A descriptor starts with its length `bLength` and its type
//! `bDescriptorType`; the body follows. Body offsets below count from the
//! end of that two-byte header.
use crate::requests::endpoint::{EndpointAddress, EndpointAttributes};
use crate::requests::setup::{
    DESCRIPTOR_CONFIGURATION, DESCRIPTOR_DEVICE, DESCRIPTOR_ENDPOINT, DESCRIPTOR_INTERFACE,
    DESCRIPTOR_STRING,
};
use vstd::prelude::*;

verus! {

/// `bDescriptorType` of the class descriptor of a HID interface.
pub const HID: u8 = 0x21;

/// The little-endian 16-bit number made of the bytes `lo` and `hi`.
pub open spec fn le16(lo: u8, hi: u8) -> u16 {
    (lo + 256 * hi) as u16
}

/// Reads the little-endian 16-bit number at `at` and `at + 1` of `buf`.
fn read_le16(buf: &[u8], at: usize) -> (v: u16)
    requires
        at + 1 < buf@.len(),
    ensures
        v == le16(buf@[at as int], buf@[at + 1]),
{
    let lo: u8 = buf[at];
    let hi: u8 = buf[at + 1];
    let v: u16 = u16::from(lo) | u16::from(hi) << 8;
    assert(v == lo + 256 * hi) by (bit_vector)
        requires
            v == (lo as u16) | (hi as u16) << 8,
    ;
    v
}

/// Device descriptor.
#[derive(Debug, Clone, Copy, PartialEq, Eq, Structural)]
pub struct Device {
    pub usb: u16,
    pub class: u8,
    pub subclass: u8,
    pub protocol: u8,
    pub max_packet_size_0: u8,
    pub vendor: u16,
    pub product: u16,
    pub device: u16,
    pub index_manufacturer: u8,
    pub index_product: u8,
    pub index_serial_number: u8,
    pub num_configurations: u8,
}

/// `bmAttributes` of a configuration descriptor.
#[derive(Debug, Clone, Copy, PartialEq, Eq, Structural)]
pub struct ConfigurationAttributes(pub u8);

impl View for ConfigurationAttributes {
    type V = u8;

    open spec fn view(&self) -> u8 {
        self.0
    }
}

/// Bit 6 of a configuration's attribute byte: self-powered.
pub open spec fn self_powered_bit(raw: u8) -> bool {
    raw & 0x40 != 0
}

/// Bit 5 of a configuration's attribute byte: remote wakeup.
pub open spec fn remote_wakeup_bit(raw: u8) -> bool {
    raw & 0x20 != 0
}

/// The set of flags that the attribute byte `raw` holds, written as
/// `{SELF_POWERED, REMOTE_WAKEUP}`, with only the flags that are set.
pub open spec fn configuration_attributes_text(raw: u8) -> Seq<char> {
    let sp = self_powered_bit(raw);
    let rw = remote_wakeup_bit(raw);
    if sp && rw {
        "{SELF_POWERED, REMOTE_WAKEUP}"@
    } else if sp {
        "{SELF_POWERED}"@
    } else if rw {
        "{REMOTE_WAKEUP}"@
    } else {
        "{}"@
    }
}

impl ConfigurationAttributes {
    /// Describes the attributes by the flags that are set.
    pub fn debug_text(&self) -> (t: String)
        ensures
            t@ == configuration_attributes_text(self@),
    {
        let sp = self.self_powered();
        let rw = self.remote_wakeup();
        let s = if sp && rw {
            "{SELF_POWERED, REMOTE_WAKEUP}"
        } else if sp {
            "{SELF_POWERED}"
        } else if rw {
            "{REMOTE_WAKEUP}"
        } else {
            "{}"
        };
        String::from_str(s)
    }

    /// Bit 6: the device has its own power supply.
    pub fn self_powered(&self) -> (b: bool)
        ensures
            b == self_powered_bit(self@),
    {
        assert(1u8 << 6u8 == 0x40) by (bit_vector);
        self.0 & 1 << 6 != 0
    }

    /// Bit 5: the device can wake the host.
    pub fn remote_wakeup(&self) -> (b: bool)
        ensures
            b == remote_wakeup_bit(self@),
    {
        assert(1u8 << 5u8 == 0x20) by (bit_vector);
        self.0 & 1 << 5 != 0
    }
}

/// Configuration descriptor.
#[derive(Debug, Clone, Copy, PartialEq, Eq, Structural)]
pub struct Configuration {
    pub total_length: u16,
    pub num_interfaces: u8,
    pub configuration_value: u8,
    /// Value which when used as an argument in the SET_CONFIGURATION request,
    /// causes the device to assume the configuration described by this descriptor.
    pub index_configuration: u8,
    pub attributes: ConfigurationAttributes,
    pub max_power: u8,
}

/// Interface descriptor.
#[derive(Debug, Clone, Copy, PartialEq, Eq, Structural)]
pub struct Interface {
    pub number: u8,
    pub alternate_setting: u8,
    pub num_endpoints: u8,
    pub class: u8,
    pub subclass: u8,
    pub protocol: u8,
    pub index: u8,
}

/// Endpoint descriptor.
#[derive(Debug, Clone, Copy, PartialEq, Eq, Structural)]
pub struct Endpoint {
    /// The address of the endpoint on the USB device described by this descriptor.
    pub address: EndpointAddress,
    pub attributes: EndpointAttributes,
    pub max_packet_size: u16,
    pub interval: u8,
}

/// The device descriptor whose body is `b`.
pub open spec fn device_of(b: Seq<u8>) -> Device {
    Device {
        usb: le16(b[0], b[1]),
        class: b[2],
        subclass: b[3],
        protocol: b[4],
        max_packet_size_0: b[5],
        vendor: le16(b[6], b[7]),
        product: le16(b[8], b[9]),
        device: le16(b[10], b[11]),
        index_manufacturer: b[12],
        index_product: b[13],
        index_serial_number: b[14],
        num_configurations: b[15],
    }
}

/// The configuration descriptor whose body is `b`.
pub open spec fn configuration_of(b: Seq<u8>) -> Configuration {
    Configuration {
        total_length: le16(b[0], b[1]),
        num_interfaces: b[2],
        configuration_value: b[3],
        index_configuration: b[3],
        attributes: ConfigurationAttributes(b[5]),
        max_power: b[6],
    }
}

/// The interface descriptor whose body is `b`.
pub open spec fn interface_of(b: Seq<u8>) -> Interface {
    Interface {
        number: b[0],
        alternate_setting: b[1],
        num_endpoints: b[2],
        class: b[3],
        subclass: b[4],
        protocol: b[5],
        index: b[6],
    }
}

/// The endpoint descriptor whose body is `b`.
pub open spec fn endpoint_of(b: Seq<u8>) -> Endpoint {
    Endpoint {
        address: EndpointAddress(b[0]),
        attributes: EndpointAttributes(b[1]),
        max_packet_size: le16(b[2], b[3]),
        interval: b[4],
    }
}

fn decode_device(buf: &[u8]) -> (d: Device)
    requires
        buf@.len() >= 16,
    ensures
        d == device_of(buf@),
{
    Device {
        usb: read_le16(buf, 0),
        class: buf[2],
        subclass: buf[3],
        protocol: buf[4],
        max_packet_size_0: buf[5],
        vendor: read_le16(buf, 6),
        product: read_le16(buf, 8),
        device: read_le16(buf, 10),
        index_manufacturer: buf[12],
        index_product: buf[13],
        index_serial_number: buf[14],
        num_configurations: buf[15],
    }
}

fn decode_configuration(buf: &[u8]) -> (c: Configuration)
    requires
        buf@.len() >= 7,
    ensures
        c == configuration_of(buf@),
{
    let num_interfaces = buf[2];
    Configuration {
        total_length: read_le16(buf, 0),
        num_interfaces,
        configuration_value: buf[3],
        index_configuration: buf[3],
        attributes: ConfigurationAttributes(buf[5]),
        max_power: buf[6],
    }
}

fn decode_interface(buf: &[u8]) -> (i: Interface)
    requires
        buf@.len() >= 7,
    ensures
        i == interface_of(buf@),
{
    let num_endpoints = buf[2];
    Interface {
        number: buf[0],
        alternate_setting: buf[1],
        num_endpoints,
        class: buf[3],
        subclass: buf[4],
        protocol: buf[5],
        index: buf[6],
    }
}

fn decode_endpoint(buf: &[u8]) -> (e: Endpoint)
    requires
        buf@.len() >= 5,
    ensures
        e == endpoint_of(buf@),
{
    Endpoint {
        address: EndpointAddress(buf[0]),
        attributes: EndpointAttributes(buf[1]),
        max_packet_size: read_le16(buf, 2),
        interval: buf[4],
    }
}

/// The UTF-16 code units that the bytes `b` hold, two bytes each, little
/// endian; a trailing odd byte is not a unit.
pub open spec fn string_units(b: Seq<u8>) -> Seq<u16> {
    Seq::new(b.len() / 2, |i: int| le16(b[2 * i], b[2 * i + 1]))
}

/// The code units of a string descriptor's body.
#[derive(Debug)]
pub struct DescriptorStringIter<'a> {
    bytes: &'a [u8],
}

impl<'a> View for DescriptorStringIter<'a> {
    type V = Seq<u16>;

    /// The code units not yet handed out.
    closed spec fn view(&self) -> Seq<u16> {
        string_units(self.bytes@)
    }
}

proof fn lemma_string_units_drop_first(b: Seq<u8>)
    requires
        b.len() >= 2,
    ensures
        string_units(b.subrange(2, b.len() as int)) == string_units(b).drop_first(),
{
    let rest = b.subrange(2, b.len() as int);
    assert(string_units(rest) =~= string_units(b).drop_first());
}

impl<'a> DescriptorStringIter<'a> {
    /// Hands out the next code unit.
    pub fn next(&mut self) -> (r: Option<u16>)
        ensures
            old(self)@.len() == 0 ==> r is None && final(self)@ == old(self)@,
            old(self)@.len() > 0 ==> r == Some(old(self)@[0]) && final(self)@ == old(
                self,
            )@.drop_first(),
    {
        let n = self.bytes.len();
        if n < 2 {
            None
        } else {
            let v = read_le16(self.bytes, 0);
            proof {
                lemma_string_units_drop_first(self.bytes@);
            }
            self.bytes = &self.bytes[2..n];
            Some(v)
        }
    }

    /// The number of code units left.
    pub fn len(&self) -> (n: usize)
        ensures
            n == self@.len(),
    {
        self.bytes.len() / 2
    }

    /// Exact bounds on the number of code units left.
    pub fn size_hint(&self) -> (h: (usize, Option<usize>))
        ensures
            h == (self@.len() as usize, Some(self@.len() as usize)),
    {
        (self.len(), Some(self.len()))
    }
}

fn decode_string(buf: &[u8]) -> (s: DescriptorStringIter<'_>)
    ensures
        s@ == string_units(buf@),
{
    DescriptorStringIter { bytes: buf }
}

/// One step of decoding a buffer of descriptors.
#[derive(Debug)]
pub enum DescriptorResult<'a> {
    Device(Device),
    Configuration(Configuration),
    String(DescriptorStringIter<'a>),
    Interface(Interface),
    Endpoint(Endpoint),
    /// A HID class descriptor. Its fields belong to the HID class driver,
    /// so the body is handed over undecoded.
    Hid { data: &'a [u8] },
    Unknown { ty: u8, data: &'a [u8] },
    Truncated { length: u8 },
    Invalid,
}

impl<'a> DescriptorResult<'a> {
    pub fn into_device(self) -> (r: Option<Device>)
        ensures
            r == (match self {
                DescriptorResult::Device(v) => Some(v),
                _ => None,
            }),
    {
        match self {
            DescriptorResult::Device(v) => Some(v),
            _ => None,
        }
    }

    pub fn into_string(self) -> (r: Option<DescriptorStringIter<'a>>)
        ensures
            r == (match self {
                DescriptorResult::String(v) => Some(v),
                _ => None,
            }),
    {
        match self {
            DescriptorResult::String(v) => Some(v),
            _ => None,
        }
    }

    pub fn into_configuration(self) -> (r: Option<Configuration>)
        ensures
            r == (match self {
                DescriptorResult::Configuration(v) => Some(v),
                _ => None,
            }),
    {
        match self {
            DescriptorResult::Configuration(v) => Some(v),
            _ => None,
        }
    }
}

/// The least `bLength` for which a descriptor of type `ty` holds every field
/// that its decoder reads.
pub open spec fn min_length(ty: u8) -> u8 {
    if ty == DESCRIPTOR_DEVICE {
        18
    } else if ty == DESCRIPTOR_CONFIGURATION {
        9
    } else if ty == DESCRIPTOR_INTERFACE {
        9
    } else if ty == DESCRIPTOR_ENDPOINT {
        7
    } else {
        2
    }
}

/// The least `bLength` for which a descriptor of type `ty` can be decoded.
fn min_length_for(ty: u8) -> (m: u8)
    ensures
        m == min_length(ty),
{
    if ty == DESCRIPTOR_DEVICE {
        18
    } else if ty == DESCRIPTOR_CONFIGURATION {
        9
    } else if ty == DESCRIPTOR_INTERFACE {
        9
    } else if ty == DESCRIPTOR_ENDPOINT {
        7
    } else {
        2
    }
}

/// Whether the first descriptor of `buf` can be decoded: callers that are
/// not verified test this before [`DescriptorResult::decode`] and before
/// each [`Iter::next`].
pub fn head_is_decodable(buf: &[u8]) -> (b: bool)
    ensures
        b == head_decodable(buf@),
{
    if buf.len() < 2 {
        return true;
    }
    let l = buf[0];
    if l < 2 || usize::from(l) > buf.len() {
        true
    } else {
        l >= min_length_for(buf[1])
    }
}

/// The first descriptor of `buf`, if its length fits in `buf`, is long
/// enough for the fields of its type.
pub open spec fn head_decodable(buf: Seq<u8>) -> bool {
    buf.len() >= 2 && 2 <= buf[0] <= buf.len() ==> buf[0] >= min_length(buf[1])
}

/// `r` is what decoding the first descriptor of the non-empty `buf` gives.
pub open spec fn decodes_to(buf: Seq<u8>, r: DescriptorResult) -> bool {
    let l = buf[0];
    if l < 2 {
        r is Invalid
    } else if l > buf.len() {
        r == DescriptorResult::Truncated { length: l }
    } else {
        let ty = buf[1];
        let b = buf.subrange(2, l as int);
        if ty == DESCRIPTOR_DEVICE {
            r == DescriptorResult::Device(device_of(b))
        } else if ty == DESCRIPTOR_CONFIGURATION {
            r == DescriptorResult::Configuration(configuration_of(b))
        } else if ty == DESCRIPTOR_STRING {
            r matches DescriptorResult::String(s) && s@ == string_units(b)
        } else if ty == DESCRIPTOR_INTERFACE {
            r == DescriptorResult::Interface(interface_of(b))
        } else if ty == DESCRIPTOR_ENDPOINT {
            r == DescriptorResult::Endpoint(endpoint_of(b))
        } else if ty == HID {
            r matches DescriptorResult::Hid { data } && data@ == b
        } else {
            r matches DescriptorResult::Unknown { ty: t, data } && t == ty && data@ == b
        }
    }
}

/// What is left of the non-empty `buf` after its first descriptor: nothing
/// when that descriptor is invalid or truncated.
pub open spec fn rest_after(buf: Seq<u8>) -> Seq<u8> {
    let l = buf[0];
    if l < 2 || l > buf.len() {
        Seq::empty()
    } else {
        buf.subrange(l as int, buf.len() as int)
    }
}

/// Decodes the descriptors in a buffer one after another.
#[derive(Debug)]
pub struct Iter<'a> {
    buf: &'a [u8],
}

impl<'a> View for Iter<'a> {
    type V = Seq<u8>;

    /// The bytes not yet decoded.
    closed spec fn view(&self) -> Seq<u8> {
        self.buf@
    }
}

pub fn decode(buf: &[u8]) -> (it: Iter<'_>)
    ensures
        it@ == buf@,
{
    Iter { buf }
}

impl<'a> Iter<'a> {
    /// Decodes the next descriptor. An invalid or truncated one ends the
    /// decoding: nothing is left after it.
    pub fn next(&mut self) -> (r: Option<DescriptorResult<'a>>)
        requires
            head_decodable(old(self)@),
        ensures
            old(self)@.len() == 0 ==> r is None && final(self)@ == old(self)@
                && descriptor_count(old(self)@) == 0,
            old(self)@.len() > 0 ==> {
                &&& r matches Some(d) && decodes_to(old(self)@, d)
                &&& final(self)@ == rest_after(old(self)@)
                &&& descriptor_count(final(self)@) + 1 == descriptor_count(old(self)@)
            },
    {
        let buf = self.buf;
        let n = buf.len();
        if n == 0 {
            return None;
        }
        self.buf = &buf[n..n];
        assert(self.buf@ =~= Seq::<u8>::empty());
        assert(descriptor_count(buf@) == 1 + descriptor_count(rest_after(buf@)));
        let l = buf[0];
        if l < 2 {
            return Some(DescriptorResult::Invalid);
        }
        let len = usize::from(l);
        if len > n {
            return Some(DescriptorResult::Truncated { length: l });
        }
        let b = &buf[2..len];
        let ty = buf[1];
        let r = if ty == DESCRIPTOR_DEVICE {
            DescriptorResult::Device(decode_device(b))
        } else if ty == DESCRIPTOR_CONFIGURATION {
            DescriptorResult::Configuration(decode_configuration(b))
        } else if ty == DESCRIPTOR_STRING {
            DescriptorResult::String(decode_string(b))
        } else if ty == DESCRIPTOR_INTERFACE {
            DescriptorResult::Interface(decode_interface(b))
        } else if ty == DESCRIPTOR_ENDPOINT {
            DescriptorResult::Endpoint(decode_endpoint(b))
        } else if ty == HID {
            DescriptorResult::Hid { data: b }
        } else {
            DescriptorResult::Unknown { ty, data: b }
        };
        self.buf = &buf[len..n];
        Some(r)
    }
}

/// Each step of the decoding consumes bytes: what is left after the first
/// descriptor is shorter than the buffer, and a valid first descriptor is
/// exactly the first `bLength` bytes, with what is left right after them.
pub proof fn lemma_next_consumes(buf: Seq<u8>)
    requires
        buf.len() > 0,
    ensures
        rest_after(buf).len() < buf.len(),
        2 <= buf[0] <= buf.len() ==> buf == buf.subrange(0, buf[0] as int) + rest_after(buf),
        !(2 <= buf[0] <= buf.len()) ==> rest_after(buf).len() == 0,
{
    if 2 <= buf[0] <= buf.len() {
        assert(buf =~= buf.subrange(0, buf[0] as int) + rest_after(buf));
    }
}

/// Decoding a descriptor reads no byte past its `bLength`: two buffers that
/// agree on the first descriptor decode to the same results.
pub proof fn lemma_decode_no_lookahead(buf1: Seq<u8>, buf2: Seq<u8>, r: DescriptorResult)
    requires
        buf1.len() >= 2,
        2 <= buf1[0] <= buf1.len(),
        buf1[0] <= buf2.len(),
        buf1.subrange(0, buf1[0] as int) == buf2.subrange(0, buf1[0] as int),
    ensures
        decodes_to(buf1, r) <==> decodes_to(buf2, r),
{
    let l = buf1[0] as int;
    assert(buf1[0] == buf1.subrange(0, l)[0]);
    assert(buf2[0] == buf2.subrange(0, l)[0]);
    assert(buf1[1] == buf1.subrange(0, l)[1]);
    assert(buf2[1] == buf2.subrange(0, l)[1]);
    assert(buf1.subrange(2, l) =~= buf2.subrange(2, l)) by {
        assert forall|i: int| 0 <= i < l - 2 implies buf1.subrange(2, l)[i] == buf2.subrange(
            2,
            l,
        )[i] by {
            assert(buf1.subrange(0, l)[i + 2] == buf2.subrange(0, l)[i + 2]);
        }
    }
}

/// The number of results that decoding `buf` hands out before it stops.
pub open spec fn descriptor_count(buf: Seq<u8>) -> nat
    decreases buf.len(),
{
    if buf.len() == 0 {
        0
    } else {
        1 + descriptor_count(rest_after(buf))
    }
}

/// Decoding a buffer of `n` bytes hands out at most `(n + 1) / 2` results:
/// every descriptor but an invalid or truncated last one takes at least two
/// bytes.
pub proof fn lemma_descriptor_count_bound(buf: Seq<u8>)
    ensures
        descriptor_count(buf) <= (buf.len() + 1) / 2,
    decreases buf.len(),
{
    if buf.len() > 0 {
        lemma_descriptor_count_bound(rest_after(buf));
    }
}

impl<'a> DescriptorResult<'a> {
    /// Decodes the first descriptor of `buf`; an empty buffer is invalid.
    pub fn decode(buf: &'a [u8]) -> (r: Self)
        requires
            head_decodable(buf@),
        ensures
            buf@.len() == 0 ==> r is Invalid,
            buf@.len() > 0 ==> decodes_to(buf@, r),
    {
        let mut it = decode(buf);
        match it.next() {
            Some(r) => r,
            None => DescriptorResult::Invalid,
        }
    }
}

} // verus!
