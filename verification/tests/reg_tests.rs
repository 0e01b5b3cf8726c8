use usbdev::usb::constants::Direction;
use usbdev::usb::usb_ext::{EpReg, EpStatus, UsbEpExt};

// Bit layout under test: 15 CTR_RX (sticky), 14 DTOG_RX (toggle),
// 13:12 STAT_RX (toggle), 11 SETUP (read-only), 10:9 EP_TYPE, 8 EP_KIND,
// 7 CTR_TX (sticky), 6 DTOG_TX (toggle), 5:4 STAT_TX (toggle), 3:0 EA.

#[test]
fn write_disciplines() {
    // plain fields take the written bits
    let mut reg = EpReg::new(0x0000);
    reg.write(0x0305);
    assert_eq!(reg.read(), 0x0305);

    // toggle fields flip where a 1 is written
    let mut reg = EpReg::new(0x2020);
    reg.write(0x3030);
    assert_eq!(reg.read() & 0x3000, 0x1000);
    assert_eq!(reg.read() & 0x0030, 0x0010);

    // sticky flags stay only where a 1 is written
    let mut reg = EpReg::new(0x8080);
    reg.write(0x8000);
    assert_eq!(reg.read() & 0x8000, 0x8000);
    assert_eq!(reg.read() & 0x0080, 0x0000);

    // the read-only SETUP bit ignores writes
    let mut reg = EpReg::new(0x0800);
    reg.write(0x0000);
    assert_eq!(reg.read() & 0x0800, 0x0800);
    let mut reg = EpReg::new(0x0000);
    reg.write(0x0800);
    assert_eq!(reg.read() & 0x0800, 0x0000);
}

#[test]
fn set_status_masked_toggle() {
    // a register with every kind of field populated
    let known: u16 = 0xcb65; // CTR_RX, DTOG_RX, SETUP, EP_TYPE=01, CTR_TX, DTOG_TX, STAT_RX=00, STAT_TX=10, EA=5
    for (s, bits) in [
        (EpStatus::Disabled, 0x0000u16),
        (EpStatus::Stall, 0x0010),
        (EpStatus::Nak, 0x0020),
        (EpStatus::Valid, 0x0030),
    ] {
        let mut reg = EpReg::new(known);
        reg.set_status(Direction::IN, s);
        let after = reg.read();
        assert_eq!(after & 0x0030, bits, "targeted STAT_TX equals the programmed status");
        assert_eq!(after & !0x0030, known & !0x0030, "every other bit keeps its value");
    }
    for (s, bits) in [
        (EpStatus::Disabled, 0x0000u16),
        (EpStatus::Stall, 0x1000),
        (EpStatus::Nak, 0x2000),
        (EpStatus::Valid, 0x3000),
    ] {
        let mut reg = EpReg::new(known);
        reg.set_status(Direction::OUT, s);
        let after = reg.read();
        assert_eq!(after & 0x3000, bits, "targeted STAT_RX equals the programmed status");
        assert_eq!(after & !0x3000, known & !0x3000, "every other bit keeps its value");
    }
}

#[test]
fn stall_both_directions() {
    let mut reg = EpReg::new(0x8aa5); // CTR_RX set, some toggles, EP_TYPE=01, EA=5
    reg.toggle_tx_stall();
    let after = reg.read();
    assert_eq!(after & 0x0030, 0x0010, "TX stalled");
    assert_eq!(after & 0x3000, 0x3000, "RX valid");
    assert_eq!(after & 0x0f0f, 0x8aa5 & 0x0f0f, "plain fields kept");
    assert_eq!(after & 0x4040, 0x8aa5 & 0x4040, "data toggles kept");
    assert_eq!(after & 0x8080, 0x0000, "completion flags cleared");
}

#[test]
fn toggle_variants() {
    let mut reg = EpReg::new(0x0205);
    reg.toggle_0();
    assert_eq!(reg.read(), 0x3235);

    let mut reg = EpReg::new(0x0205);
    reg.toggle_tx_out();
    assert_eq!(reg.read(), 0x0335);

    let mut reg = EpReg::new(0x0205);
    reg.toggle_out();
    assert_eq!(reg.read(), 0x3335);

    let mut reg = EpReg::new(0x0205);
    reg.toggle_rx();
    assert_eq!(reg.read(), 0x4205);

    let mut reg = EpReg::new(0x0205);
    reg.toggle_tx();
    assert_eq!(reg.read(), 0x0245);
}

#[test]
fn clear_transaction_complete_is_one_sided() {
    let mut reg = EpReg::new(0xb2c5); // both CTR flags set amid other fields
    reg.clear_ctr_rx();
    let after = reg.read();
    assert_eq!(after & 0x8000, 0, "RX completion cleared");
    assert_eq!(after, 0xb2c5 & 0x7fff, "everything else kept");

    let mut reg = EpReg::new(0xb2c5);
    reg.clear_ctr_tx();
    let after = reg.read();
    assert_eq!(after & 0x0080, 0, "TX completion cleared");
    assert_eq!(after, 0xb2c5 & 0xff7f, "everything else kept");
}

#[test]
fn reset_data_toggle_clears_one_bit() {
    let mut reg = EpReg::new(0x4245);
    reg.reset_data_toggle(Direction::IN);
    assert_eq!(reg.read() & 0x0040, 0, "DTOG_TX cleared");
    assert_eq!(reg.read() & 0x4000, 0x4000, "DTOG_RX kept");

    let mut reg = EpReg::new(0x4245);
    reg.reset_data_toggle(Direction::OUT);
    assert_eq!(reg.read() & 0x4000, 0, "DTOG_RX cleared");
    assert_eq!(reg.read() & 0x0040, 0x0040, "DTOG_TX kept");
}

#[test]
fn canonical_toggle_primitive() {
    // toggle(mask, val, flags) writes ((current & (EP_MASK | mask)) ^ val) | flags
    let mut reg = EpReg::new(0x0205);
    reg.toggle(0x3030, 0x3010, 0x0100);
    // written word: ((0x0205 & 0x3F3F) ^ 0x3010) | 0x0100 = 0x3315;
    // plain fields take it, STAT toggles land on the XORed value,
    // completion flags clear
    assert_eq!(reg.read(), 0x3315);
}

#[test]
fn status_to_bits() {
    assert_eq!(EpStatus::Disabled.to_bits(), 0);
    assert_eq!(EpStatus::Stall.to_bits(), 1);
    assert_eq!(EpStatus::Nak.to_bits(), 2);
    assert_eq!(EpStatus::Valid.to_bits(), 3);
}

#[test]
fn hw_latch_only_raises() {
    let mut reg = EpReg::new(0x0200);
    reg.hw_latch(0x8800);
    assert_eq!(reg.read(), 0x8a00);
}
