use usbdev::usb::pma::{PMA, PMA_Area, PMA_SIZE};
use usbdev::usb::Error;

#[test]
fn word_round_trip() {
    let mut area = PMA_Area::new();
    area.set_u16(4, 0xbeef).unwrap();
    assert_eq!(area.get_u16(4).unwrap(), 0xbeef);
    area.set_u16(4, 0x0001).unwrap();
    assert_eq!(area.get_u16(4).unwrap(), 0x0001);
    area.set_u16(1022, 0xa55a).unwrap();
    assert_eq!(area.get_u16(1022).unwrap(), 0xa55a);
}

#[test]
fn word_round_trip_odd_offset() {
    let mut area = PMA_Area::new();
    area.set_u16(3, 0x1234).unwrap();
    assert_eq!(area.get_u16(3).unwrap(), 0x1234);
    assert_eq!(area.get_u8(3).unwrap(), 0x34);
    assert_eq!(area.get_u8(4).unwrap(), 0x12);
}

#[test]
fn byte_round_trip() {
    let mut area = PMA_Area::new();
    area.set_u8(0, 0x7f).unwrap();
    assert_eq!(area.get_u8(0).unwrap(), 0x7f);
    area.set_u8(1023, 0x80).unwrap();
    assert_eq!(area.get_u8(1023).unwrap(), 0x80);
}

#[test]
fn byte_write_keeps_sibling_byte() {
    let mut area = PMA_Area::new();
    area.set_u16(8, 0xa1b2).unwrap();
    area.set_u8(8, 0xff).unwrap();
    assert_eq!(area.get_u8(9).unwrap(), 0xa1);
    area.set_u8(9, 0x00).unwrap();
    assert_eq!(area.get_u8(8).unwrap(), 0xff);
}

#[test]
fn buffer_fidelity_even_and_odd() {
    for len in 0..9usize {
        let mut area = PMA_Area::new();
        let bytes: Vec<u8> = (0..len as u8).map(|b| b.wrapping_mul(37).wrapping_add(1)).collect();
        area.set_u8(32 + len, 0xee).unwrap();
        area.write_buffer_u8(32, &bytes).unwrap();
        for (i, b) in bytes.iter().enumerate() {
            assert_eq!(area.get_u8(32 + i).unwrap(), *b, "len {} index {}", len, i);
        }
        // the byte just past the buffer, sharing a word with a trailing
        // odd byte, is untouched
        assert_eq!(area.get_u8(32 + len).unwrap(), 0xee);
        if len > 0 {
            assert_eq!(area.get_u8(31).unwrap(), 0);
        }
    }
}

#[test]
fn range_errors() {
    let mut area = PMA_Area::new();
    assert_eq!(area.get_u8(PMA_SIZE), Err(Error::RangeError));
    assert_eq!(area.set_u8(PMA_SIZE, 1), Err(Error::RangeError));
    assert_eq!(area.get_u16(PMA_SIZE - 1), Err(Error::RangeError));
    assert_eq!(area.set_u16(PMA_SIZE - 1, 1), Err(Error::RangeError));
    assert_eq!(area.get_u8(PMA_SIZE - 1), Ok(0));
    assert!(area.set_u16(PMA_SIZE - 2, 0xffff).is_ok());
    let big = vec![7u8; 9];
    assert_eq!(area.write_buffer_u8(PMA_SIZE - 8, &big), Err(Error::RangeError));
    // the failed write changed nothing
    assert_eq!(area.get_u8(PMA_SIZE - 8), Ok(0));
    assert_eq!(area.get_u8(PMA_SIZE - 2), Ok(0xff));
    assert_eq!(area.borrow_slice(10, 9), Err(Error::RangeError));
    assert_eq!(area.borrow_slice(0, PMA_SIZE + 1), Err(Error::RangeError));
}

#[test]
fn zero_clears_everything() {
    let mut pma = PMA::new();
    pma.pma_area.set_u16(100, 0xffff).unwrap();
    pma.pma_area.set_u8(1023, 9).unwrap();
    pma.zero();
    assert_eq!(pma.pma_area.get_u16(100).unwrap(), 0);
    assert_eq!(pma.pma_area.get_u8(1023).unwrap(), 0);
}

#[test]
fn borrow_slice_copies_range() {
    let mut area = PMA_Area::new();
    area.write_buffer_u8(5, &[1, 2, 3, 4]).unwrap();
    let s = area.borrow_slice(5, 9).unwrap();
    assert_eq!(s, vec![1, 2, 3, 4]);
    let empty = area.borrow_slice(7, 7).unwrap();
    assert!(empty.is_empty());
}

#[test]
fn buffer_descriptor_views_words() {
    let mut area = PMA_Area::new();
    area.set_u16(8, 0x0040).unwrap(); // ADDR1_TX
    area.set_u16(10, 0x0007).unwrap(); // COUNT1_TX
    area.set_u16(12, 0x0080).unwrap(); // ADDR1_RX
    area.set_u16(14, 0x8400).unwrap(); // COUNT1_RX
    let bd = area.get_buffer_descriptor(1).unwrap();
    assert_eq!(bd.ADDR_TX, 0x0040);
    assert_eq!(bd.COUNT_TX, 0x0007);
    assert_eq!(bd.ADDR_RX, 0x0080);
    assert_eq!(bd.COUNT_RX, 0x8400);
    assert_eq!(area.get_buffer_descriptor(128), Err(Error::RangeError));
}
