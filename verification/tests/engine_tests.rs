use usbdev::usb::constants::{Destination, Direction, Type, UsbRequest};
use usbdev::usb::descriptors::{Configuration, Device, Endpoint, Interface, total_length};
use usbdev::usb::{Descriptors, Usb, UsbEvent, UsbState, DADDR_EF, ISTR_CTR, ISTR_DIR, ISTR_ERR,
    ISTR_ESOF, ISTR_RESET, ISTR_SOF, ISTR_SUSP};

fn demo_descriptors() -> Descriptors {
    let ints = vec![Interface::new().bNumEndpoints(1).iInterface(5)];
    let eps = vec![Endpoint::new().bEndpointAddress(0x01).wMaxPacketSize(64).bInterval(1)];
    Descriptors {
        Device: Device::new().iManufacturer(1).iProduct(2).iSerialNumber(3).bNumConfigurations(1),
        Configuration: Configuration::new()
            .wTotalLength(total_length(1, 1))
            .bNumInterfaces(1)
            .bConfigurationValue(1)
            .iConfiguration(4)
            .bmAttributes(0xc0)
            .bMaxPower(0xfa),
        Interfaces: ints,
        Endpoints: eps,
    }
}

#[test]
fn init_state() {
    let usb = Usb::usb(demo_descriptors());
    assert_eq!(usb.cntr, 0x9c00);
    assert_eq!(usb.istr, 0);
    assert_eq!(usb.daddr, DADDR_EF);
    assert_eq!(usb.btable, 0);
    assert_eq!(usb.ep0r.read(), 0);
    assert!(matches!(usb.state, UsbState::BootReset));
    assert_eq!(usb.pma.pma_area.get_u16(0).unwrap(), 0);
}

#[test]
fn reset_rearms_endpoint_zero() {
    let mut usb = Usb::usb(demo_descriptors());
    usb.hw_set_istr(ISTR_RESET);
    let ev = usb.interrupt();
    assert_eq!(ev, UsbEvent::ResetHandled);
    assert_eq!(usb.istr, 0);

    // endpoint 0's buffer descriptor: TX at 0x40 with 0 bytes, RX at 0x20
    // armed with the 64-byte capacity marker
    let bd = usb.pma.pma_area.get_buffer_descriptor(0).unwrap();
    assert_eq!(bd.ADDR_TX, 0x40);
    assert_eq!(bd.COUNT_TX, 0);
    assert_eq!(bd.ADDR_RX, 0x20);
    assert_eq!(bd.COUNT_RX, 0x8400);

    // the endpoint register reports control type, TX=Nak, RX=Valid
    let ep0r = usb.ep0r.read();
    assert_eq!(ep0r & 0x0600, 0x0200, "control endpoint");
    assert_eq!(ep0r & 0x0030, 0x0020, "TX Nak");
    assert_eq!(ep0r & 0x3000, 0x3000, "RX Valid");

    assert_eq!(usb.daddr, DADDR_EF, "function enabled at address 0");
    assert!(matches!(usb.state, UsbState::Reset));
}

#[test]
fn reset_aborts_in_flight_transfer() {
    let mut usb = Usb::usb(demo_descriptors());
    usb.hw_receive_setup(&[0x00, 0x05, 0x05, 0x00, 0x00, 0x00, 0x00, 0x00]);
    usb.interrupt();
    assert_eq!(usb.pending_address, Some(5));
    usb.hw_set_istr(ISTR_RESET);
    usb.interrupt();
    assert_eq!(usb.pending_address, None, "reset aborts the pending transfer");
    assert_eq!(usb.daddr, DADDR_EF);
}

#[test]
fn error_is_cleared_and_dropped() {
    let mut usb = Usb::usb(demo_descriptors());
    usb.hw_set_istr(ISTR_ERR | ISTR_SOF);
    let ev = usb.interrupt();
    assert_eq!(ev, UsbEvent::ErrorCleared);
    assert_eq!(usb.istr & ISTR_ERR, 0);
    assert!(matches!(usb.state, UsbState::BootReset), "no other action taken");
}

#[test]
fn ignored_flags_are_cleared() {
    let mut usb = Usb::usb(demo_descriptors());
    usb.hw_set_istr(ISTR_SUSP | ISTR_SOF | ISTR_ESOF);
    let ev = usb.interrupt();
    assert_eq!(ev, UsbEvent::Idle);
    assert_eq!(usb.istr, 0);
}

#[test]
fn get_descriptor_scenario() {
    // SETUP: 80 06 00 01 00 00 12 00 — GetDescriptor(Device), 18 bytes
    let mut usb = Usb::usb(demo_descriptors());
    usb.hw_set_istr(ISTR_RESET);
    usb.interrupt();
    usb.hw_receive_setup(&[0x80, 0x06, 0x00, 0x01, 0x00, 0x00, 0x12, 0x00]);
    let ev = usb.interrupt();
    assert_eq!(
        ev,
        UsbEvent::DescriptorRequested {
            request: UsbRequest::GetDescriptor,
            value: 0x0100,
            index: 0,
            length: 18,
        }
    );
    // the request's fields decode as IN, Standard, Device
    assert_eq!(Direction::from_bits(0x80), Some(Direction::IN));
    assert_eq!(Type::from_bits(0x80), Some(Type::Standard));
    assert_eq!(Destination::from_bits(0x80), Some(Destination::Device));
    // the packed Device descriptor is exactly the 18 bytes the host asked for
    assert_eq!(usb.descriptors.Device.to_bytes().len(), 18);
    // the RX byte count is re-armed for the next transaction
    assert_eq!(usb.pma.pma_area.get_u16(6).unwrap(), 0x8400);
}

#[test]
fn set_address_scenario() {
    // SETUP: 00 05 07 00 00 00 00 00 — SetAddress(7)
    let mut usb = Usb::usb(demo_descriptors());
    usb.hw_set_istr(ISTR_RESET);
    usb.interrupt();

    usb.hw_receive_setup(&[0x00, 0x05, 0x07, 0x00, 0x00, 0x00, 0x00, 0x00]);
    let ev = usb.interrupt();
    assert_eq!(ev, UsbEvent::AddressLatched { address: 7 });

    // the address register stays unprogrammed until the status stage
    assert_eq!(usb.daddr, DADDR_EF, "address not applied before the status stage");
    assert_eq!(usb.pending_address, Some(7));
    assert!(matches!(usb.state, UsbState::Reset));

    // the zero-length status stage completes on the IN side
    usb.hw_transmit_complete();
    let ev = usb.interrupt();
    assert_eq!(ev, UsbEvent::TxHandled { applied_address: Some(7) });
    assert_eq!(usb.daddr, DADDR_EF | 7);
    assert!(matches!(usb.state, UsbState::Addressed(7)));
    assert_eq!(usb.pending_address, None);
}

#[test]
fn get_status_stalls_tx() {
    let mut usb = Usb::usb(demo_descriptors());
    usb.hw_set_istr(ISTR_RESET);
    usb.interrupt();
    usb.hw_receive_setup(&[0x00, 0x00, 0x00, 0x00, 0x00, 0x00, 0x02, 0x00]);
    let ev = usb.interrupt();
    let ep0r = usb.ep0r.read();
    assert_eq!(ev, UsbEvent::GetStatus { ep0r });
    assert_eq!(ep0r & 0x0030, 0x0010, "TX stalled");
    assert_eq!(ep0r & 0x3000, 0x3000, "RX valid");
}

#[test]
fn unrecognized_request_takes_no_action() {
    let mut usb = Usb::usb(demo_descriptors());
    usb.hw_set_istr(ISTR_RESET);
    usb.interrupt();
    let daddr = usb.daddr;
    let ep0r_before = usb.ep0r.read();
    // 21 09: OUT, Class, Interface — SetConfiguration code on the wrong tuple
    usb.hw_receive_setup(&[0x21, 0x09, 0x00, 0x02, 0x00, 0x00, 0x00, 0x00]);
    let ev = usb.interrupt();
    assert_eq!(
        ev,
        UsbEvent::Unrecognized {
            direction: Some(Direction::OUT),
            typ: Some(Type::Class),
            destination: Some(Destination::Interface),
            request: Some(UsbRequest::SetConfiguration),
        }
    );
    assert_eq!(usb.daddr, daddr);
    assert_eq!(usb.pending_address, None);
    // only the hardware-latched flags differ; no masked write was issued
    assert_eq!(usb.ep0r.read(), ep0r_before | 0x8800);
}

#[test]
fn data_out_packet_is_counted_and_dropped() {
    let mut usb = Usb::usb(demo_descriptors());
    usb.hw_set_istr(ISTR_RESET);
    usb.interrupt();
    // a DATA OUT completion: CTR with DIR set but no SETUP flag
    usb.pma.pma_area.set_u16(6, 0x8400 | 12).unwrap();
    usb.ep0r.hw_latch(0x8000); // CTR_RX only
    usb.hw_set_istr(ISTR_CTR | ISTR_DIR);
    let ev = usb.interrupt();
    assert_eq!(ev, UsbEvent::DataOut { count: 12 });
    assert_eq!(usb.pma.pma_area.get_u16(6).unwrap(), 0x8400, "re-armed");
}

#[test]
fn transmit_without_pending_address() {
    let mut usb = Usb::usb(demo_descriptors());
    usb.hw_set_istr(ISTR_RESET);
    usb.interrupt();
    usb.hw_transmit_complete();
    let ev = usb.interrupt();
    assert_eq!(ev, UsbEvent::TxHandled { applied_address: None });
    assert_eq!(usb.daddr, DADDR_EF);
    assert!(matches!(usb.state, UsbState::Reset));
    assert_eq!(usb.pma.pma_area.get_u16(6).unwrap(), 0, "RX count cleared");
}

#[test]
fn other_endpoints_are_left_alone() {
    let mut usb = Usb::usb(demo_descriptors());
    usb.hw_set_istr(ISTR_CTR | ISTR_DIR | 0x0001); // endpoint 1
    let ev = usb.interrupt();
    assert_eq!(ev, UsbEvent::Idle);
}

#[test]
fn do_work_branches_on_direction() {
    let mut usb = Usb::usb(demo_descriptors());
    usb.hw_set_istr(ISTR_RESET);
    usb.interrupt();
    usb.hw_receive_setup(&[0x00, 0x05, 0x03, 0x00, 0x00, 0x00, 0x00, 0x00]);
    let ev = usb.do_work();
    assert_eq!(ev, UsbEvent::AddressLatched { address: 3 });
    usb.hw_transmit_complete();
    let ev = usb.do_work();
    assert_eq!(ev, UsbEvent::TxHandled { applied_address: Some(3) });
    assert_eq!(usb.daddr, DADDR_EF | 3);
}
