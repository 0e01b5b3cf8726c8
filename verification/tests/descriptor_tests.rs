use usbdev::usb::constants::{Destination, Direction, Type, UsbDescriptorType, UsbRequest,
    UsbRequestType};
use usbdev::usb::descriptors::{Configuration, Device, DeviceQualifier, Endpoint, Interface,
    String0, StringDesc, config_set_bytes, total_length};
use usbdev::usb::types;

#[test]
fn device_descriptor_bytes_exact() {
    let dev = Device::new().iManufacturer(1).iProduct(2).iSerialNumber(3).bNumConfigurations(1);
    let bytes = dev.to_bytes();
    assert_eq!(
        bytes,
        vec![
            18, 0x01, // bLength, bDescriptorType
            0x00, 0x02, // bcdUSB 0x0200 little-endian
            0x00, 0x00, 0x00, // class, subclass, protocol
            0x40, // bMaxPacketSize0
            0xff, 0xff, // idVendor
            0xff, 0xff, // idProduct
            0x00, 0x02, // bcdDevice
            1, 2, 3, // iManufacturer, iProduct, iSerialNumber
            1, // bNumConfigurations
        ]
    );
}

#[test]
fn device_builder_copies_leave_original() {
    let base = Device::new();
    let changed = base.idVendor(0x1209).idProduct(0x0001);
    assert_eq!(base.idVendor, 0xffff);
    assert_eq!(base.idProduct, 0xffff);
    assert_eq!(changed.idVendor, 0x1209);
    assert_eq!(changed.idProduct, 0x0001);
    assert_eq!(changed.bcdUSB, base.bcdUSB);
    assert_eq!(Device::default(), Device::new());
}

#[test]
fn device_qualifier_bytes_exact() {
    let q = DeviceQualifier::new().bcdUSB(0x0200);
    assert_eq!(
        q.to_bytes(),
        vec![10, 0x06, 0x00, 0x02, 0x00, 0x00, 0x00, 0x40, 0x01, 0x00]
    );
    assert_eq!(DeviceQualifier::default(), DeviceQualifier::new());
}

#[test]
fn interface_and_endpoint_bytes_exact() {
    let iface = Interface::new().bNumEndpoints(1).iInterface(5);
    assert_eq!(
        iface.to_bytes(),
        vec![9, 0x04, 0, 0, 1, 0xff, 0xff, 0xff, 5]
    );
    let ep = Endpoint::new().bEndpointAddress(0x01).wMaxPacketSize(64).bInterval(1);
    assert_eq!(ep.to_bytes(), vec![7, 0x05, 0x01, 0x02, 64, 0, 1]);
    assert_eq!(Interface::default(), Interface::new());
    assert_eq!(Endpoint::default(), Endpoint::new());
}

#[test]
fn configuration_total_length() {
    // one interface, one endpoint: 9 + 9 + 7 bytes
    assert_eq!(total_length(1, 1), 25);
    assert_eq!(total_length(1, 0), 18);
    assert_eq!(total_length(2, 3), 48);

    let cfg = Configuration::new()
        .wTotalLength(total_length(1, 1))
        .bNumInterfaces(1)
        .bConfigurationValue(1)
        .iConfiguration(4)
        .bmAttributes(0xc0)
        .bMaxPower(0xfa);
    assert_eq!(
        cfg.to_bytes(),
        vec![9, 0x02, 25, 0, 1, 1, 4, 0xc0, 0xfa]
    );

    let ints = vec![Interface::new()];
    let eps = vec![Endpoint::new()];
    let set = config_set_bytes(&cfg, &ints, &eps);
    assert_eq!(set.len(), cfg.wTotalLength as usize);
    let mut expected = cfg.to_bytes();
    expected.extend(ints[0].to_bytes());
    expected.extend(eps[0].to_bytes());
    assert_eq!(set, expected);
}

#[test]
fn config_set_bytes_many_records() {
    let ints = vec![
        Interface::new().bInterfaceNumber(0),
        Interface::new().bInterfaceNumber(1),
    ];
    let eps = vec![
        Endpoint::new().bEndpointAddress(0x01),
        Endpoint::new().bEndpointAddress(0x81),
        Endpoint::new().bEndpointAddress(0x02),
    ];
    let cfg = Configuration::new()
        .wTotalLength(total_length(ints.len(), eps.len()))
        .bNumInterfaces(2);
    let set = config_set_bytes(&cfg, &ints, &eps);
    assert_eq!(set.len(), 9 + 9 * 2 + 7 * 3);
    assert_eq!(set.len(), cfg.wTotalLength as usize);
    assert_eq!(set[9..18], ints[0].to_bytes()[..]);
    assert_eq!(set[18..27], ints[1].to_bytes()[..]);
    assert_eq!(set[27..34], eps[0].to_bytes()[..]);
}

#[test]
fn config_set_bytes_no_endpoints() {
    let ints = vec![Interface::new().bNumEndpoints(0)];
    let eps: Vec<Endpoint> = Vec::new();
    let cfg = Configuration::new()
        .wTotalLength(total_length(ints.len(), eps.len()))
        .bNumInterfaces(1);
    assert_eq!(cfg.wTotalLength, 18);
    let set = config_set_bytes(&cfg, &ints, &eps);
    assert_eq!(set.len(), cfg.wTotalLength as usize);
}

#[test]
fn request_code_decode_is_total() {
    assert_eq!(UsbRequest::from_byte(0x00), Some(UsbRequest::GetStatus));
    assert_eq!(UsbRequest::from_byte(0x05), Some(UsbRequest::SetAddress));
    assert_eq!(UsbRequest::from_byte(0x06), Some(UsbRequest::GetDescriptor));
    assert_eq!(UsbRequest::from_byte(0x0c), Some(UsbRequest::SynchFrame));
    assert_eq!(UsbRequest::from_byte(0x04), None);
    assert_eq!(UsbRequest::from_byte(0x0d), None);
    assert_eq!(UsbRequest::from_byte(0xff), None);
    for b in 0u8..=255 {
        if let Some(q) = UsbRequest::from_byte(b) {
            assert_eq!(q.to_byte(), b);
        }
    }
}

#[test]
fn request_type_field_decodes() {
    // bmRequestType 0x80: IN, Standard, Device
    assert_eq!(Direction::from_bits(0x80), Some(Direction::IN));
    assert_eq!(Type::from_bits(0x80), Some(Type::Standard));
    assert_eq!(Destination::from_bits(0x80), Some(Destination::Device));
    // 0x21: OUT, Class, Interface
    assert_eq!(Direction::from_bits(0x21), Some(Direction::OUT));
    assert_eq!(Type::from_bits(0x21), Some(Type::Class));
    assert_eq!(Destination::from_bits(0x21), Some(Destination::Interface));
    // the reserved class pattern decodes to None, the rest still decode
    assert_eq!(Type::from_bits(0x60), None);
    assert_eq!(Direction::from_bits(0x62), Some(Direction::OUT));
    assert_eq!(Destination::from_bits(0x63), Some(Destination::Other));
    // to_bits places each field at its position
    assert_eq!(Direction::IN.to_bits() | Type::Vendor.to_bits() | Destination::Endpoint.to_bits(),
        0xc2);
}

#[test]
fn combined_request_type_decode() {
    assert_eq!(UsbRequestType::from_bits(0x80), Some(UsbRequestType::InStandardDevice));
    assert_eq!(UsbRequestType::from_bits(0x21), Some(UsbRequestType::OutClassInterface));
    assert_eq!(UsbRequestType::from_bits(0xc2), Some(UsbRequestType::InVendorEndpoint));
    assert_eq!(UsbRequestType::from_bits(0x60), None);
    assert_eq!(UsbRequestType::from_bits(0x04), None);
    for b in 0u8..=255 {
        if let Some(t) = UsbRequestType::from_bits(b) {
            assert_eq!(t.to_bits(), b);
        }
    }
}

#[test]
fn string_descriptors_and_device_tree() {
    let lang = String0 { bLength: 4, bDescriptorType: 0x03, wLANGID: vec![0x0409] };
    assert_eq!(lang.wLANGID[0], 0x0409);
    let name = StringDesc { bLength: 10, bDescriptorType: 0x03, uString: b"test".to_vec() };
    assert_eq!(name.uString.len(), 4);

    let tree = types::Device {
        descriptor: Device::new(),
        configurations: vec![types::Configuration {
            descriptor: Configuration::new().bNumInterfaces(1),
            interfaces: vec![types::Interface {
                descriptor: Interface::new(),
                other_descriptors: vec![],
                endpoints: vec![types::Endpoint { descriptor: Endpoint::new() }],
            }],
        }],
    };
    assert_eq!(tree.configurations.len(), 1);
    assert_eq!(tree.configurations[0].interfaces[0].endpoints.len(), 1);
}

#[test]
fn descriptor_type_decode_is_total() {
    assert_eq!(UsbDescriptorType::from_byte(0x01), Some(UsbDescriptorType::Device));
    assert_eq!(UsbDescriptorType::from_byte(0x02), Some(UsbDescriptorType::Configuration));
    assert_eq!(UsbDescriptorType::from_byte(0x22), Some(UsbDescriptorType::HidReport));
    assert_eq!(UsbDescriptorType::from_byte(0x00), None);
    assert_eq!(UsbDescriptorType::from_byte(0x08), None);
    for b in 0u8..=255 {
        if let Some(t) = UsbDescriptorType::from_byte(b) {
            assert_eq!(t.to_byte(), b);
        }
    }
}
