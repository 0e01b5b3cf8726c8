//! Endpoint-register control.
//!
//! An endpoint register mixes three write disciplines in one word: plain
//! read-write fields, toggle fields that flip where a 1 is written, and
//! sticky completion flags that stay only where a 1 is written.  A naive
//! assignment therefore corrupts unrelated fields; every operation here is
//! routed through one canonical masked-XOR primitive that first reads the
//! current value.
//!
//! Bit layout of the 16-bit register:
//!
//! | bits  | field    | discipline            |
//! |-------|----------|------------------------|
//! | 15    | CTR_RX   | sticky (write 0 clears) |
//! | 14    | DTOG_RX  | toggle                 |
//! | 13:12 | STAT_RX  | toggle                 |
//! | 11    | SETUP    | read-only              |
//! | 10:9  | EP_TYPE  | plain                  |
//! | 8     | EP_KIND  | plain                  |
//! | 7     | CTR_TX   | sticky (write 0 clears) |
//! | 6     | DTOG_TX  | toggle                 |
//! | 5:4   | STAT_TX  | toggle                 |
//! | 3:0   | EA       | plain                  |

use vstd::prelude::*;
use crate::usb::constants::Direction;

verus! {

/// Plain and read-only fields kept by every masked write.
pub const EP_MASK: u16 = 0x0F0F;
/// The STAT_TX field.
pub const EP_TX_MASK: u16 = 0x0030;
/// The STAT_RX field.
pub const EP_RX_MASK: u16 = 0x3000;
/// Both status fields.
pub const EP_TX_RX_MASK: u16 = 0x3030;

/// STAT_TX = Valid.
pub const EP_TX_VALID: u16 = 0x0030;
/// STAT_RX = Valid.
pub const EP_RX_VALID: u16 = 0x3000;
/// Both status fields Valid.
pub const EP_TX_RX_VALID: u16 = 0x3030;

/// STAT_TX = Stall.
pub const EP_TX_STALL: u16 = 0x0010;
/// STAT_TX = Nak.
pub const EP_TX_NAK: u16 = 0x0020;
/// The EP_KIND bit; on a control endpoint it selects the status-out substate.
pub const EP_STATUS_OUT: u16 = 0x0100;

/// RX transaction-complete flag.
pub const EP_CTR_RX: u16 = 0x8000;
/// TX transaction-complete flag.
pub const EP_CTR_TX: u16 = 0x0080;
/// RX data-toggle bit.
pub const EP_DTOG_RX: u16 = 0x4000;
/// TX data-toggle bit.
pub const EP_DTOG_TX: u16 = 0x0040;
/// SETUP-transaction flag, set only by the peripheral.
pub const EP_SETUP: u16 = 0x0800;
/// EP_TYPE = control.
pub const EP_TYPE_CONTROL: u16 = 0x0200;

/// The register content after the word `w` is stored over the current
/// content `cur`: plain fields take the written bits, toggle fields flip
/// where a 1 is written, sticky flags survive only where a 1 is written,
/// and the read-only SETUP bit keeps its value.
pub open spec fn spec_reg_after_write(cur: u16, w: u16) -> u16 {
    (w & 0x070f) | ((cur ^ w) & 0x7070) | (cur & w & 0x8080) | (cur & 0x0800)
}

/// The word written by the canonical masked-XOR primitive.
pub open spec fn spec_toggle_word(cur: u16, mask: u16, val: u16, flags: u16) -> u16 {
    ((cur & (0x0f0f | mask)) ^ val) | flags
}

/// Register content after one run of the canonical primitive.
pub open spec fn spec_toggle(cur: u16, mask: u16, val: u16, flags: u16) -> u16 {
    spec_reg_after_write(cur, spec_toggle_word(cur, mask, val, flags))
}

/// State of one direction's status field.
#[derive(Debug, Copy, Clone, PartialEq, Eq, Structural)]
pub enum EpStatus {
    Disabled,
    Stall,
    Nak,
    Valid,
}

impl EpStatus {
    /// The field's two-bit value.
    pub open spec fn spec_bits(self) -> u16 {
        match self {
            EpStatus::Disabled => 0,
            EpStatus::Stall => 1,
            EpStatus::Nak => 2,
            EpStatus::Valid => 3,
        }
    }

    pub fn to_bits(self) -> (r: u16)
        ensures
            r == self.spec_bits(),
    {
        match self {
            EpStatus::Disabled => 0,
            EpStatus::Stall => 1,
            EpStatus::Nak => 2,
            EpStatus::Valid => 3,
        }
    }
}

/// The status field addressed when programming the given direction:
/// IN is served by STAT_TX, OUT by STAT_RX.
pub open spec fn spec_status_mask(direction: Direction) -> u16 {
    match direction {
        Direction::IN => EP_TX_MASK,
        Direction::OUT => EP_RX_MASK,
    }
}

/// `status` placed in the field addressed by `direction`.
pub open spec fn spec_status_bits(direction: Direction, status: EpStatus) -> u16 {
    match direction {
        Direction::IN => (status.spec_bits() << 4) as u16,
        Direction::OUT => (status.spec_bits() << 12) as u16,
    }
}

/// Model of one endpoint register.  Software stores go through [`EpReg::write`],
/// which applies the hardware write disciplines; flags that only the
/// peripheral can raise are latched through [`EpReg::hw_latch`].
#[derive(Debug, Copy, Clone, PartialEq, Eq, Structural)]
pub struct EpReg {
    /// Current register content.
    pub value: u16,
}

/// The masked read-modify-write operations every higher-level endpoint
/// operation must be expressed through.
pub trait UsbEpExt {
    /// Current content of the register.
    spec fn bits(&self) -> u16;

    /// The canonical primitive: one store of
    /// `((current & (EP_MASK | mask)) ^ val) | flags`.
    fn toggle(&mut self, mask: u16, val: u16, flags: u16)
        ensures
            final(self).bits() == spec_toggle(old(self).bits(), mask, val, flags),
    ;

    /// STAT_TX becomes Stall and STAT_RX Valid in one store; plain fields,
    /// data toggles and SETUP keep their value, the completion flags clear.
    fn toggle_tx_stall(&mut self)
        ensures
            final(self).bits() == spec_toggle(old(self).bits(), EP_TX_RX_MASK, EP_RX_VALID | EP_TX_STALL, 0),
            final(self).bits() == (old(self).bits() & 0x4f4f) | 0x3010,
    ;

    /// STAT_TX becomes Valid and EP_KIND is forced on, putting a control
    /// endpoint into its status-out substate; STAT_RX and the data toggles
    /// keep their value, the completion flags clear.
    fn toggle_tx_out(&mut self)
        ensures
            final(self).bits() == spec_toggle(old(self).bits(), EP_TX_MASK, EP_TX_VALID, EP_STATUS_OUT),
            final(self).bits() == (old(self).bits() & 0x7f4f) | 0x0130,
    ;

    /// Both status fields become Valid and EP_KIND is forced on.
    fn toggle_out(&mut self)
        ensures
            final(self).bits() == spec_toggle(old(self).bits(), EP_TX_RX_MASK, EP_TX_RX_VALID, EP_STATUS_OUT),
            final(self).bits() == (old(self).bits() & 0x4f4f) | 0x3130,
    ;

    /// Both status fields become Valid; everything else but the completion
    /// flags keeps its value.
    fn toggle_0(&mut self)
        ensures
            final(self).bits() == spec_toggle(old(self).bits(), EP_TX_RX_MASK, EP_TX_RX_VALID, 0),
            final(self).bits() == (old(self).bits() & 0x4f4f) | 0x3030,
    ;

    /// Forces DTOG_RX on; the status fields and plain fields keep their value.
    fn toggle_rx(&mut self)
        ensures
            final(self).bits() == spec_toggle(old(self).bits(), EP_DTOG_RX, EP_DTOG_RX, 0),
            final(self).bits() == (old(self).bits() & 0x3f7f) | 0x4000,
    ;

    /// Forces DTOG_TX on; the status fields and plain fields keep their value.
    fn toggle_tx(&mut self)
        ensures
            final(self).bits() == spec_toggle(old(self).bits(), EP_DTOG_TX, EP_DTOG_TX, 0),
            final(self).bits() == (old(self).bits() & 0x7f3f) | 0x0040,
    ;

    /// Clears only the RX completion flag; every other bit keeps its value.
    fn clear_ctr_rx(&mut self)
        ensures
            final(self).bits() == old(self).bits() & 0x7fff,
    ;

    /// Clears only the TX completion flag; every other bit keeps its value.
    fn clear_ctr_tx(&mut self)
        ensures
            final(self).bits() == old(self).bits() & 0xff7f,
    ;
}

impl EpReg {
    pub fn new(value: u16) -> (r: EpReg)
        ensures
            r.bits() == value,
    {
        EpReg { value }
    }

    /// Read of the current register content.
    pub fn read(&self) -> (r: u16)
        ensures
            r == self.bits(),
    {
        self.value
    }

    /// One store of `w`, applied under the hardware write disciplines.
    pub fn write(&mut self, w: u16)
        ensures
            final(self).bits() == spec_reg_after_write(old(self).bits(), w),
    {
        let cur = self.value;
        self.value = (w & 0x070f) | ((cur ^ w) & 0x7070) | (cur & w & 0x8080) | (cur & 0x0800);
    }

    /// Stands for the peripheral raising flag bits (completion, SETUP,
    /// data toggles) at the end of a bus transaction.
    pub fn hw_latch(&mut self, bits: u16)
        ensures
            final(self).bits() == old(self).bits() | bits,
    {
        self.value = self.value | bits;
    }

    /// Programs one direction's status field to `status` and leaves every
    /// other bit of the register as it was.
    pub fn set_status(&mut self, direction: Direction, status: EpStatus)
        ensures
            final(self).bits() == (old(self).bits() & !spec_status_mask(direction))
                | spec_status_bits(direction, status),
    {
        let r = self.read();
        let sticky: u16 = r & 0x8080;
        match direction {
            Direction::IN => {
                let pattern: u16 = status.to_bits() << 4;
                self.toggle(EP_TX_MASK, pattern, sticky);
                proof {
                    let b = old(self).bits();
                    let s = status.spec_bits();
                    assert(s <= 3 ==> spec_toggle(b, EP_TX_MASK, (s << 4) as u16, b & 0x8080)
                        == (b & !EP_TX_MASK) | ((s << 4) as u16)) by (bit_vector);
                }
            },
            Direction::OUT => {
                let pattern: u16 = status.to_bits() << 12;
                self.toggle(EP_RX_MASK, pattern, sticky);
                proof {
                    let b = old(self).bits();
                    let s = status.spec_bits();
                    assert(s <= 3 ==> spec_toggle(b, EP_RX_MASK, (s << 12) as u16, b & 0x8080)
                        == (b & !EP_RX_MASK) | ((s << 12) as u16)) by (bit_vector);
                }
            },
        }
    }

    /// Clears one direction's data-toggle bit, so the next transaction of
    /// that direction expects DATA0; every other bit keeps its value but
    /// the completion flags, which clear.
    pub fn reset_data_toggle(&mut self, direction: Direction)
        ensures
            direction is IN ==> final(self).bits() == old(self).bits() & 0x7f3f,
            direction is OUT ==> final(self).bits() == old(self).bits() & 0x3f7f,
    {
        match direction {
            Direction::IN => {
                self.toggle(EP_DTOG_TX, 0, 0);
                proof {
                    let b = old(self).bits();
                    assert(spec_toggle(b, EP_DTOG_TX, 0, 0) == b & 0x7f3f) by (bit_vector);
                }
            },
            Direction::OUT => {
                self.toggle(EP_DTOG_RX, 0, 0);
                proof {
                    let b = old(self).bits();
                    assert(spec_toggle(b, EP_DTOG_RX, 0, 0) == b & 0x3f7f) by (bit_vector);
                }
            },
        }
    }
}

impl UsbEpExt for EpReg {
    open spec fn bits(&self) -> u16 {
        self.value
    }

    fn toggle(&mut self, mask: u16, val: u16, flags: u16) {
        let r = self.read();
        self.write(((r & (EP_MASK | mask)) ^ val) | flags);
    }

    fn toggle_tx_stall(&mut self) {
        self.toggle(EP_TX_RX_MASK, EP_RX_VALID | EP_TX_STALL, 0);
        proof {
            let b = old(self).bits();
            assert(spec_toggle(b, EP_TX_RX_MASK, EP_RX_VALID | EP_TX_STALL, 0) == (b & 0x4f4f) | 0x3010)
                by (bit_vector);
        }
    }

    fn toggle_tx_out(&mut self) {
        self.toggle(EP_TX_MASK, EP_TX_VALID, EP_STATUS_OUT);
        proof {
            let b = old(self).bits();
            assert(spec_toggle(b, EP_TX_MASK, EP_TX_VALID, EP_STATUS_OUT) == (b & 0x7f4f) | 0x0130)
                by (bit_vector);
        }
    }

    fn toggle_out(&mut self) {
        self.toggle(EP_TX_RX_MASK, EP_TX_RX_VALID, EP_STATUS_OUT);
        proof {
            let b = old(self).bits();
            assert(spec_toggle(b, EP_TX_RX_MASK, EP_TX_RX_VALID, EP_STATUS_OUT) == (b & 0x4f4f) | 0x3130)
                by (bit_vector);
        }
    }

    fn toggle_0(&mut self) {
        self.toggle(EP_TX_RX_MASK, EP_TX_RX_VALID, 0);
        proof {
            let b = old(self).bits();
            assert(spec_toggle(b, EP_TX_RX_MASK, EP_TX_RX_VALID, 0) == (b & 0x4f4f) | 0x3030)
                by (bit_vector);
        }
    }

    fn toggle_rx(&mut self) {
        self.toggle(EP_DTOG_RX, EP_DTOG_RX, 0);
        proof {
            let b = old(self).bits();
            assert(spec_toggle(b, EP_DTOG_RX, EP_DTOG_RX, 0) == (b & 0x3f7f) | 0x4000)
                by (bit_vector);
        }
    }

    fn toggle_tx(&mut self) {
        self.toggle(EP_DTOG_TX, EP_DTOG_TX, 0);
        proof {
            let b = old(self).bits();
            assert(spec_toggle(b, EP_DTOG_TX, EP_DTOG_TX, 0) == (b & 0x7f3f) | 0x0040)
                by (bit_vector);
        }
    }

    fn clear_ctr_rx(&mut self) {
        self.toggle(0, 0, EP_CTR_TX);
        proof {
            let b = old(self).bits();
            assert(spec_toggle(b, 0, 0, EP_CTR_TX) == b & 0x7fff) by (bit_vector);
        }
    }

    fn clear_ctr_tx(&mut self) {
        self.toggle(0, 0, EP_CTR_RX);
        proof {
            let b = old(self).bits();
            assert(spec_toggle(b, 0, 0, EP_CTR_RX) == b & 0xff7f) by (bit_vector);
        }
    }
}

} // verus!
