//! Standard device requests and their encoding as setup packets.
use crate::requests::endpoint::Direction;
use crate::requests::request_type::{DIR_IN, DIR_OUT, RECIPIENT_DEVICE, TYPE_STANDARD};
use vstd::prelude::*;

verus! {

pub const GET_STATUS: u8 = 0;

pub const CLEAR_FEATURE: u8 = 1;

pub const SET_FEATURE: u8 = 3;

pub const SET_ADDRESS: u8 = 5;

pub const GET_DESCRIPTOR: u8 = 6;

pub const SET_DESCRIPTOR: u8 = 7;

pub const GET_CONFIGURATION: u8 = 8;

pub const SET_CONFIGURATION: u8 = 9;

pub const GET_INTERFACE: u8 = 10;

pub const SET_INTERFACE: u8 = 11;

pub const SYNC_FRAME: u8 = 12;

pub const DESCRIPTOR_DEVICE: u8 = 1;

pub const DESCRIPTOR_CONFIGURATION: u8 = 2;

pub const DESCRIPTOR_STRING: u8 = 3;

pub const DESCRIPTOR_INTERFACE: u8 = 4;

pub const DESCRIPTOR_ENDPOINT: u8 = 5;

pub const DESCRIPTOR_DEVICE_QUALIFIER: u8 = 6;

pub const DESCRIPTOR_OTHER_SPEED_CONFIGURATION: u8 = 7;

pub const DESCRIPTOR_INTERFACE_POWER: u8 = 8;

/// Which descriptor a GET_DESCRIPTOR request asks for.
#[derive(Debug, Clone, Copy, PartialEq, Eq, Structural)]
pub enum GetDescriptor {
    Device,
    Configuration { index: u8 },
    String { index: u8 },
}

/// A standard request; `B` is the buffer that receives the data stage.
///
/// HID class requests are not among these: the HID class driver, which
/// defines them, builds their setup packets itself.
#[derive(Debug)]
pub enum Request<B> {
    GetDescriptor { ty: GetDescriptor, buffer: B },
    SetConfiguration { value: u8 },
}

/// A request as the fields of a setup packet, with its data buffer.
#[derive(Debug)]
pub struct RawRequest<B> {
    pub request_type: u8,
    pub direction: Direction,
    pub request: u8,
    pub value: u16,
    pub index: u16,
    pub buffer: Option<B>,
}

/// `wValue` of GET_DESCRIPTOR: the descriptor type in the high byte, the
/// descriptor index in the low byte.
pub open spec fn descriptor_value(ty: GetDescriptor) -> u16 {
    match ty {
        GetDescriptor::Device => (DESCRIPTOR_DEVICE * 256) as u16,
        GetDescriptor::Configuration { index } => (DESCRIPTOR_CONFIGURATION * 256 + index) as u16,
        GetDescriptor::String { index } => (DESCRIPTOR_STRING * 256 + index) as u16,
    }
}

/// The setup packet that encodes `req`.
pub open spec fn raw_request_of<B>(req: Request<B>) -> RawRequest<B> {
    match req {
        Request::GetDescriptor { ty, buffer } => RawRequest {
            request_type: 0x80,
            direction: Direction::In,
            request: GET_DESCRIPTOR,
            value: descriptor_value(ty),
            index: 0,
            buffer: Some(buffer),
        },
        Request::SetConfiguration { value } => RawRequest {
            request_type: 0,
            direction: Direction::Out,
            request: SET_CONFIGURATION,
            value: value as u16,
            index: 0,
            buffer: None,
        },
    }
}

/// `(ty << 8) | index` for a descriptor type `ty` and an index byte.
fn type_and_index(ty: u8, index: u8) -> (v: u16)
    ensures
        v == ty * 256 + index,
{
    let v: u16 = u16::from(ty) << 8 | u16::from(index);
    assert(v == ty * 256 + index) by (bit_vector)
        requires
            v == (ty as u16) << 8 | (index as u16),
    ;
    v
}

/// The direction bit of `bmRequestType` agrees with the direction of the
/// encoded request, and only a device-to-host request carries a buffer.
pub proof fn lemma_raw_request_direction<B>(req: Request<B>)
    ensures
        (raw_request_of(req).request_type & 0x80 != 0) <==> raw_request_of(req).direction
            == Direction::In,
        raw_request_of(req).buffer is Some <==> raw_request_of(req).direction == Direction::In,
        raw_request_of(req).request_type & 0x1f == RECIPIENT_DEVICE,
        raw_request_of(req).request_type & 0x60 == TYPE_STANDARD,
{
    assert(0x80u8 & 0x80 != 0 && 0x80u8 & 0x1f == 0 && 0x80u8 & 0x60 == 0) by (bit_vector);
    assert(0u8 & 0x80 == 0 && 0u8 & 0x1f == 0 && 0u8 & 0x60 == 0) by (bit_vector);
    assert((0u8 << 5u8) == 0) by (bit_vector);
}

/// `wValue` of a GET_DESCRIPTOR request holds the descriptor type in its high
/// byte and the index in its low byte (the index of the device descriptor
/// is 0).
pub proof fn lemma_descriptor_value_fields(ty: GetDescriptor)
    ensures
        descriptor_value(ty) / 256 == (match ty {
            GetDescriptor::Device => DESCRIPTOR_DEVICE,
            GetDescriptor::Configuration { .. } => DESCRIPTOR_CONFIGURATION,
            GetDescriptor::String { .. } => DESCRIPTOR_STRING,
        }),
        descriptor_value(ty) % 256 == (match ty {
            GetDescriptor::Device => 0,
            GetDescriptor::Configuration { index } => index,
            GetDescriptor::String { index } => index,
        }),
{
}

impl<B> Request<B> {
    pub fn into_raw(self) -> (r: RawRequest<B>)
        ensures
            r == raw_request_of(self),
    {
        assert((1u8 << 7u8) | (0u8 << 5u8) | 0u8 == 0x80) by (bit_vector);
        assert((0u8 << 7u8) | (0u8 << 5u8) | 0u8 == 0) by (bit_vector);
        assert((1u16 << 8u16) == 256) by (bit_vector);
        match self {
            Request::GetDescriptor { ty, buffer } => RawRequest {
                request_type: DIR_IN | TYPE_STANDARD | RECIPIENT_DEVICE,
                direction: Direction::In,
                request: GET_DESCRIPTOR,
                value: match ty {
                    GetDescriptor::Device => u16::from(DESCRIPTOR_DEVICE) << 8,
                    GetDescriptor::Configuration { index } => type_and_index(
                        DESCRIPTOR_CONFIGURATION,
                        index,
                    ),
                    GetDescriptor::String { index } => type_and_index(DESCRIPTOR_STRING, index),
                },
                index: 0,
                buffer: Some(buffer),
            },
            Request::SetConfiguration { value } => RawRequest {
                request_type: DIR_OUT | TYPE_STANDARD | RECIPIENT_DEVICE,
                direction: Direction::Out,
                request: SET_CONFIGURATION,
                value: u16::from(value),
                index: 0,
                buffer: None,
            },
        }
    }
}

} // verus!
