use lib::requests::endpoint::Direction;
use lib::requests::setup::{GetDescriptor, RawRequest, Request};

fn raw(req: Request<Vec<u8>>) -> RawRequest<Vec<u8>> {
    req.into_raw()
}

#[test]
fn get_device_descriptor() {
    let r = raw(Request::GetDescriptor { ty: GetDescriptor::Device, buffer: vec![0u8; 18] });
    assert_eq!(r.request_type, 0x80);
    assert_eq!(r.direction, Direction::In);
    assert_eq!(r.request, 6);
    assert_eq!(r.value, 0x0100);
    assert_eq!(r.index, 0);
    assert_eq!(r.buffer, Some(vec![0u8; 18]));
}

#[test]
fn get_configuration_descriptor() {
    let r = raw(Request::GetDescriptor {
        ty: GetDescriptor::Configuration { index: 2 },
        buffer: vec![1, 2, 3],
    });
    assert_eq!(r.request_type, 0x80);
    assert_eq!(r.direction, Direction::In);
    assert_eq!(r.request, 6);
    assert_eq!(r.value, 0x0202);
    assert_eq!(r.index, 0);
    assert_eq!(r.buffer, Some(vec![1, 2, 3]));
}

#[test]
fn get_string_descriptor() {
    let r = raw(Request::GetDescriptor {
        ty: GetDescriptor::String { index: 0xfe },
        buffer: Vec::new(),
    });
    assert_eq!(r.value, 0x03fe);
    assert_eq!(r.value >> 8, 3);
    assert_eq!(r.value & 0xff, 0xfe);
    assert_eq!(r.request_type & 0x80, 0x80);
    assert_eq!(r.buffer, Some(Vec::new()));
}

#[test]
fn set_configuration() {
    let r = raw(Request::SetConfiguration { value: 0xab });
    assert_eq!(r.request_type, 0);
    assert_eq!(r.direction, Direction::Out);
    assert_eq!(r.request, 9);
    assert_eq!(r.value, 0x00ab);
    assert_eq!(r.index, 0);
    assert_eq!(r.buffer, None);
    assert_eq!(r.request_type & 0x80, 0);
}
