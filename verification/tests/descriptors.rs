use lib::requests::descriptor::{decode, head_is_decodable, ConfigurationAttributes, DescriptorResult};
use lib::requests::endpoint::{
    Direction, EndpointAddress, EndpointAttributes, EndpointNumber, EndpointSync,
    EndpointTransfer, EndpointUsage,
};

const DEVICE: [u8; 18] = [
    18, 1, 0x00, 0x02, 0xff, 0x01, 0x02, 64, 0x34, 0x12, 0x78, 0x56, 0x01, 0x01, 1, 2, 3, 1,
];

const CONFIG_BUNDLE: [u8; 34] = [
    9, 2, 34, 0, 1, 1, 4, 0xe0, 50, // configuration
    9, 4, 0, 0, 1, 3, 1, 2, 0, // interface
    9, 0x21, 0x11, 0x01, 0, 1, 0x22, 63, 0, // class-specific (HID)
    7, 5, 0x81, 3, 8, 0, 10, // endpoint
];

#[test]
fn device_descriptor_fields() {
    let d = DescriptorResult::decode(&DEVICE).into_device().expect("a device descriptor");
    assert_eq!(d.usb, 0x0200);
    assert_eq!(d.class, 0xff);
    assert_eq!(d.subclass, 0x01);
    assert_eq!(d.protocol, 0x02);
    assert_eq!(d.max_packet_size_0, 64);
    assert_eq!(d.vendor, 0x1234);
    assert_eq!(d.product, 0x5678);
    assert_eq!(d.device, 0x0101);
    assert_eq!(d.index_manufacturer, 1);
    assert_eq!(d.index_product, 2);
    assert_eq!(d.index_serial_number, 3);
    assert_eq!(d.num_configurations, 1);
}

#[test]
fn configuration_bundle_walks_every_descriptor() {
    let mut it = decode(&CONFIG_BUNDLE);
    let c = it.next().unwrap().into_configuration().expect("configuration");
    assert_eq!(c.total_length, 34);
    assert_eq!(c.num_interfaces, 1);
    assert_eq!(c.configuration_value, 1);
    assert_eq!(c.index_configuration, 1);
    assert_eq!(c.attributes, ConfigurationAttributes(0xe0));
    assert!(c.attributes.self_powered());
    assert!(c.attributes.remote_wakeup());
    assert_eq!(c.max_power, 50);
    match it.next() {
        Some(DescriptorResult::Interface(i)) => {
            assert_eq!(i.number, 0);
            assert_eq!(i.alternate_setting, 0);
            assert_eq!(i.num_endpoints, 1);
            assert_eq!(i.class, 3);
            assert_eq!(i.subclass, 1);
            assert_eq!(i.protocol, 2);
            assert_eq!(i.index, 0);
        }
        other => panic!("expected an interface, got {:?}", other),
    }
    match it.next() {
        Some(DescriptorResult::Hid { data }) => {
            assert_eq!(data, &CONFIG_BUNDLE[20..27]);
        }
        other => panic!("expected a HID descriptor, got {:?}", other),
    }
    match it.next() {
        Some(DescriptorResult::Endpoint(e)) => {
            assert_eq!(e.address, EndpointAddress(0x81));
            assert_eq!(e.attributes, EndpointAttributes(3));
            assert_eq!(e.max_packet_size, 8);
            assert_eq!(e.interval, 10);
            assert_eq!(e.address.direction(), Direction::In);
            assert_eq!(e.address.number(), EndpointNumber::N1);
            assert_eq!(e.attributes.transfer(), EndpointTransfer::Interrupt);
        }
        other => panic!("expected an endpoint, got {:?}", other),
    }
    assert!(it.next().is_none());
    assert!(it.next().is_none());
}

#[test]
fn string_descriptor_units() {
    let buf = [8u8, 3, b'U', 0, b'S', 0, 0xac, 0x20];
    let mut s = DescriptorResult::decode(&buf).into_string().expect("a string");
    assert_eq!(s.len(), 3);
    assert_eq!(s.size_hint(), (3, Some(3)));
    assert_eq!(s.next(), Some(u16::from(b'U')));
    assert_eq!(s.len(), 2);
    assert_eq!(s.next(), Some(u16::from(b'S')));
    assert_eq!(s.next(), Some(0x20ac));
    assert_eq!(s.len(), 0);
    assert_eq!(s.next(), None);
    assert_eq!(s.size_hint(), (0, Some(0)));
}

#[test]
fn string_descriptor_drops_odd_byte() {
    let buf = [5u8, 3, 0x41, 0, 0x42];
    let mut s = DescriptorResult::decode(&buf).into_string().expect("a string");
    assert_eq!(s.len(), 1);
    assert_eq!(s.next(), Some(0x41));
    assert_eq!(s.next(), None);
}

#[test]
fn empty_buffer_is_invalid() {
    assert!(matches!(DescriptorResult::decode(&[]), DescriptorResult::Invalid));
    assert!(decode(&[]).next().is_none());
}

#[test]
fn short_length_is_invalid_and_ends_decoding() {
    let buf = [1u8, 5, 9, 9, 9];
    let mut it = decode(&buf);
    assert!(matches!(it.next(), Some(DescriptorResult::Invalid)));
    assert!(it.next().is_none());
}

#[test]
fn overlong_length_is_truncated_and_ends_decoding() {
    let buf = [9u8, 2, 34, 0];
    let mut it = decode(&buf);
    assert!(matches!(it.next(), Some(DescriptorResult::Truncated { length: 9 })));
    assert!(it.next().is_none());
    assert!(matches!(
        DescriptorResult::decode(&[3u8]),
        DescriptorResult::Truncated { length: 3 }
    ));
}

#[test]
fn decoding_reads_only_the_first_descriptor() {
    let a = [4u8, 0x30, 1, 2, 0xff, 0xff];
    let b = [4u8, 0x30, 1, 2];
    match (DescriptorResult::decode(&a), DescriptorResult::decode(&b)) {
        (
            DescriptorResult::Unknown { ty: t1, data: d1 },
            DescriptorResult::Unknown { ty: t2, data: d2 },
        ) => {
            assert_eq!(t1, 0x30);
            assert_eq!(t1, t2);
            assert_eq!(d1, &[1u8, 2][..]);
            assert_eq!(d1, d2);
        }
        other => panic!("expected two unknown descriptors, got {:?}", other),
    }
}

#[test]
fn into_helpers_reject_other_kinds() {
    assert!(DescriptorResult::decode(&DEVICE).into_string().is_none());
    assert!(DescriptorResult::decode(&DEVICE).into_configuration().is_none());
    assert!(DescriptorResult::decode(&CONFIG_BUNDLE).into_device().is_none());
}

#[test]
fn configuration_attribute_bits() {
    let a = ConfigurationAttributes(0x80);
    assert!(!a.self_powered());
    assert!(!a.remote_wakeup());
    let b = ConfigurationAttributes(0xc0);
    assert!(b.self_powered());
    assert!(!b.remote_wakeup());
    let c = ConfigurationAttributes(0xa0);
    assert!(!c.self_powered());
    assert!(c.remote_wakeup());
}

#[test]
fn endpoint_address_fields() {
    assert_eq!(EndpointAddress(0x02).direction(), Direction::Out);
    assert_eq!(EndpointAddress(0x82).direction(), Direction::In);
    assert_eq!(EndpointAddress(0x0f).number(), EndpointNumber::N15);
    assert_eq!(EndpointAddress(0x8a).number(), EndpointNumber::N10);
    assert_eq!(EndpointAddress(0x75).number(), EndpointNumber::N5);
}

#[test]
fn endpoint_number_to_usize() {
    for raw in 1u8..=0xff {
        if raw & 0xf == 0 {
            continue;
        }
        let n = EndpointAddress(raw).number();
        assert_eq!(usize::from(n), usize::from(raw & 0xf));
    }
}

#[test]
fn endpoint_attribute_fields() {
    let a = EndpointAttributes(0b0010_0101);
    assert_eq!(a.transfer(), EndpointTransfer::Isoch);
    assert_eq!(a.sync(), EndpointSync::Async);
    assert_eq!(a.usage(), EndpointUsage::Implicit);
    let b = EndpointAttributes(0b0001_1010);
    assert_eq!(b.transfer(), EndpointTransfer::Bulk);
    assert_eq!(b.sync(), EndpointSync::Adapt);
    assert_eq!(b.usage(), EndpointUsage::Feedback);
    let c = EndpointAttributes(0b1100_1100);
    assert_eq!(c.transfer(), EndpointTransfer::Control);
    assert_eq!(c.sync(), EndpointSync::Sync);
    assert_eq!(c.usage(), EndpointUsage::Data);
    assert_eq!(EndpointAttributes(0).sync(), EndpointSync::NoSync);
}

#[test]
fn configuration_value_is_what_set_configuration_takes() {
    let buf = [9u8, 2, 9, 0, 1, 7, 4, 0x80, 50];
    let c = DescriptorResult::decode(&buf).into_configuration().expect("configuration");
    assert_eq!(c.configuration_value, 7);
    assert_eq!(c.index_configuration, 7);
}

#[test]
fn head_decodability() {
    assert!(head_is_decodable(&[]));
    assert!(head_is_decodable(&[1]));
    assert!(head_is_decodable(&DEVICE));
    assert!(head_is_decodable(&CONFIG_BUNDLE));
    assert!(head_is_decodable(&[4u8, 1, 0, 0, 0]) == false);
    assert!(head_is_decodable(&[8u8, 2, 0, 0, 0, 0, 0, 0]) == false);
    assert!(head_is_decodable(&[6u8, 5, 0, 0, 0, 0]) == false);
    assert!(head_is_decodable(&[9u8, 1, 0]));
    assert!(head_is_decodable(&[1u8, 1]));
    assert!(head_is_decodable(&[2u8, 0x21]));
}

fn count_results(buf: &[u8]) -> usize {
    let mut it = decode(buf);
    let mut n = 0;
    while it.next().is_some() {
        n += 1;
    }
    n
}

#[test]
fn decoding_hands_out_at_most_half_the_bytes() {
    let pairs = [2u8, 0x30, 2, 0x30, 2, 0x30, 1];
    assert_eq!(count_results(&pairs), 4);
    assert_eq!(count_results(&pairs[..6]), 3);
    assert!(count_results(&pairs) <= (pairs.len() + 1) / 2);
    assert_eq!(count_results(&CONFIG_BUNDLE), 4);
    assert_eq!(count_results(&[0u8]), 1);
    assert_eq!(count_results(&[]), 0);
}

#[test]
fn descriptions_of_bit_fields() {
    assert_eq!(
        EndpointAddress(0x81).debug_text(),
        "EndpointAddress { direction: In, number: N1 }"
    );
    assert_eq!(
        EndpointAddress(0x0c).debug_text(),
        "EndpointAddress { direction: Out, number: N12 }"
    );
    assert_eq!(
        EndpointAttributes(0b0001_0010).debug_text(),
        "EndpointAttributes { usage: Feedback, sync: None, transfer: Bulk }"
    );
    assert_eq!(
        EndpointAttributes(0b0010_1111).debug_text(),
        "EndpointAttributes { usage: Implicit, sync: Sync, transfer: Interrupt }"
    );
    assert_eq!(ConfigurationAttributes(0xe0).debug_text(), "{SELF_POWERED, REMOTE_WAKEUP}");
    assert_eq!(ConfigurationAttributes(0xc0).debug_text(), "{SELF_POWERED}");
    assert_eq!(ConfigurationAttributes(0xa0).debug_text(), "{REMOTE_WAKEUP}");
    assert_eq!(ConfigurationAttributes(0x80).debug_text(), "{}");
}
