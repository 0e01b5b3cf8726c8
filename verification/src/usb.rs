//! The USB device peripheral: packet memory, endpoint registers,
//! descriptors, and the control-transfer engine.
//!
//! The engine owns models of the peripheral's registers (global control,
//! interrupt status, device address, buffer table, endpoint 0) plus the
//! packet memory, and drives the default control pipe.  Flags that only the
//! peripheral can raise are presented through the `hw_` methods; the
//! interrupt glue of a target build reads the real registers into the model
//! and writes the model's changes back.

pub mod constants;
pub mod pma;
pub mod usb_ext;
pub mod descriptors;
pub mod types;

use vstd::prelude::*;
use crate::usb::constants::{Destination, Direction, Type, UsbRequest};
use crate::usb::pma::{PMA, PMA_SIZE, spec_splice, spec_word_at, spec_word_set};
use crate::usb::usb_ext::{
    EpReg, UsbEpExt, EP_CTR_RX, EP_CTR_TX, EP_RX_MASK, EP_RX_VALID, EP_SETUP, EP_TX_MASK,
    EP_TX_NAK, EP_TYPE_CONTROL,
};

verus! {

/// What can go wrong inside the driver core.
#[derive(Debug, Copy, Clone, PartialEq, Eq, Structural)]
pub enum Error {
    /// One-time peripheral initialization failed.
    INITFAIL,
    /// A packet-memory access lay outside the region.
    RangeError,
}

/// Phase of the device along the enumeration sequence.
#[derive(Debug, Copy, Clone, PartialEq, Eq, Structural)]
pub enum UsbState {
    BootReset,
    Reset,
    Initialized,
    Addressed(u8),
}

/// Largest packet endpoint 0 accepts, in bytes.
pub const MAX_PACKET_SIZE: u16 = 64;

/// COUNT0_RX content that accepts a full 64-byte packet: BLSIZE set, one
/// 32-byte block beyond the first, count field zero.
pub const COUNT0_RX_ARMED: u16 = 0x8400;

/// Transaction-complete flag of the interrupt status register.
pub const ISTR_CTR: u16 = 0x8000;
/// Bus-error flag.
pub const ISTR_ERR: u16 = 0x2000;
/// Suspend-request flag; out of scope, cleared unhandled.
pub const ISTR_SUSP: u16 = 0x0800;
/// Bus-reset flag.
pub const ISTR_RESET: u16 = 0x0400;
/// Start-of-frame flag; out of scope, cleared unhandled.
pub const ISTR_SOF: u16 = 0x0200;
/// Expected-start-of-frame flag; out of scope, cleared unhandled.
pub const ISTR_ESOF: u16 = 0x0100;
/// Direction of the completed transaction: set for host-to-device.
pub const ISTR_DIR: u16 = 0x0010;
/// Endpoint of the completed transaction.
pub const ISTR_EP_ID: u16 = 0x000f;

/// Enable-function bit of the device-address register.
pub const DADDR_EF: u8 = 0x80;

/// Correct-transfer interrupt mask of the control register.
pub const CNTR_CTRM: u16 = 0x8000;
/// Wakeup interrupt mask.
pub const CNTR_WKUPM: u16 = 0x1000;
/// Suspend interrupt mask.
pub const CNTR_SUSPM: u16 = 0x0800;
/// Reset interrupt mask.
pub const CNTR_RESETM: u16 = 0x0400;

/// The full descriptor set the device answers enumeration with.
#[derive(Debug, Clone)]
pub struct Descriptors {
    pub Device: descriptors::Device,
    pub Configuration: descriptors::Configuration,
    pub Interfaces: Vec<descriptors::Interface>,
    pub Endpoints: Vec<descriptors::Endpoint>,
}

/// Marker for pin pairs the peripheral can take over.
pub trait Pins<P> {}

/// What one handler pass observed and did.  Returned to the caller for
/// diagnostics only; nothing reads it back into the protocol.
#[derive(Debug, Copy, Clone, PartialEq, Eq)]
pub enum UsbEvent {
    /// RESET was latched: endpoint 0 was re-armed and the function re-enabled.
    ResetHandled,
    /// ERROR was latched and cleared; the erroneous transaction is dropped.
    ErrorCleared,
    /// GetStatus placeholder: answered by stalling TX with RX kept valid.
    GetStatus { ep0r: u16 },
    /// SetAddress: the address is latched, to be applied only after the
    /// status stage of this same transfer completes.
    AddressLatched { address: u8 },
    /// GetDescriptor observed; its data stage is not yet implemented, so
    /// this is a distinct, explicitly reported outcome.
    DescriptorRequested { request: UsbRequest, value: u16, index: u16, length: u16 },
    /// A (recipient, type, direction, code) tuple outside the dispatch
    /// table: no protocol action taken.
    Unrecognized {
        direction: Option<Direction>,
        typ: Option<Type>,
        destination: Option<Destination>,
        request: Option<UsbRequest>,
    },
    /// A DATA OUT packet of `count` bytes arrived; write-type requests are
    /// not implemented, so it is dropped.
    DataOut { count: u16 },
    /// An IN transaction completed; if an address was pending its status
    /// stage is now confirmed and the address was applied.
    TxHandled { applied_address: Option<u8> },
    /// Nothing was pending.
    Idle,
}

/// The control-transfer engine: owns the peripheral's global registers,
/// endpoint-0 register, packet memory and device state.
pub struct Usb {
    /// Global control register: power bits and interrupt masks.
    pub cntr: u16,
    /// Interrupt status register; event flags are latched by the peripheral
    /// (here: through the `hw_` methods) and cleared by the handler.
    pub istr: u16,
    /// Device address register: EF bit plus the 7-bit address.
    pub daddr: u8,
    /// Buffer-descriptor-table address register.
    pub btable: u16,
    /// Battery-charging/pull-up control register.
    pub bcdr: u16,
    /// Endpoint 0 register.
    pub ep0r: EpReg,
    /// The packet memory.
    pub pma: PMA,
    /// Enumeration phase.
    pub state: UsbState,
    /// Address latched by SetAddress, applied once that transfer's status
    /// stage completes.
    pub pending_address: Option<u8>,
    /// The descriptor set consulted to answer requests.
    pub descriptors: Descriptors,
}

/// The `bmRequestType` byte of the SETUP record in endpoint 0's receive
/// buffer.
pub open spec fn spec_setup_request_type(pma: Seq<u8>) -> u8 {
    (spec_word_at(pma, 0x20) & 0xff) as u8
}

/// The `bRequest` byte of the SETUP record.
pub open spec fn spec_setup_request(pma: Seq<u8>) -> u8 {
    ((spec_word_at(pma, 0x20) >> 8) & 0xff) as u8
}

/// The `wValue` word of the SETUP record.
pub open spec fn spec_setup_value(pma: Seq<u8>) -> u16 {
    spec_word_at(pma, 0x22)
}

/// The `wIndex` word of the SETUP record.
pub open spec fn spec_setup_index(pma: Seq<u8>) -> u16 {
    spec_word_at(pma, 0x24)
}

/// The `wLength` word of the SETUP record.
pub open spec fn spec_setup_length(pma: Seq<u8>) -> u16 {
    spec_word_at(pma, 0x26)
}

/// The tuple (OUT, Standard, Device): bits 7, 6:5 and 1:0 all clear.
pub open spec fn spec_is_out_std_device(rt: u8) -> bool {
    rt & 0xe3 == 0x00
}

/// The tuple (IN, Standard, Device): bit 7 set, bits 6:5 and 1:0 clear.
pub open spec fn spec_is_in_std_device(rt: u8) -> bool {
    rt & 0xe3 == 0x80
}

/// Endpoint-0 register content after one receive pass.
pub open spec fn spec_rx_ep0r(ep0r: u16, pma: Seq<u8>) -> u16 {
    if ep0r & EP_SETUP == 0 {
        ep0r
    } else {
        let rt = spec_setup_request_type(pma);
        let rq = spec_setup_request(pma);
        if spec_is_out_std_device(rt) && rq == 0x00 {
            (ep0r & 0x4f4f) | 0x3010
        } else if spec_is_out_std_device(rt) && rq == 0x05 {
            (ep0r & 0x4f4f) | 0x3030
        } else {
            ep0r
        }
    }
}

/// Latched address after one receive pass: a SetAddress SETUP stores its
/// 7-bit value, anything else leaves the latch alone.
pub open spec fn spec_rx_pending(pending: Option<u8>, ep0r: u16, pma: Seq<u8>) -> Option<u8> {
    if ep0r & EP_SETUP != 0 && spec_is_out_std_device(spec_setup_request_type(pma))
        && spec_setup_request(pma) == 0x05 {
        Some((spec_setup_value(pma) & 0x7f) as u8)
    } else {
        pending
    }
}

/// The diagnostic outcome of one receive pass.
pub open spec fn spec_rx_event(ep0r: u16, pma: Seq<u8>) -> UsbEvent {
    if ep0r & EP_SETUP == 0 {
        UsbEvent::DataOut { count: spec_word_at(pma, 6) & 0x03ff }
    } else {
        let rt = spec_setup_request_type(pma);
        let rq = spec_setup_request(pma);
        if spec_is_out_std_device(rt) && rq == 0x00 {
            UsbEvent::GetStatus { ep0r: (ep0r & 0x4f4f) | 0x3010 }
        } else if spec_is_out_std_device(rt) && rq == 0x05 {
            UsbEvent::AddressLatched { address: (spec_setup_value(pma) & 0x7f) as u8 }
        } else if spec_is_in_std_device(rt) && rq == 0x06 {
            UsbEvent::DescriptorRequested {
                request: UsbRequest::GetDescriptor,
                value: spec_setup_value(pma),
                index: spec_setup_index(pma),
                length: spec_setup_length(pma),
            }
        } else {
            UsbEvent::Unrecognized {
                direction: Direction::spec_from_bits(rt),
                typ: Type::spec_from_bits(rt),
                destination: Destination::spec_from_bits(rt),
                request: UsbRequest::spec_from_byte(rq),
            }
        }
    }
}

/// Device-address register after an IN completion: a pending address is
/// applied with the function kept enabled, else the register is untouched.
pub open spec fn spec_tx_daddr(daddr: u8, pending: Option<u8>) -> u8 {
    match pending {
        Some(a) => DADDR_EF | a,
        None => daddr,
    }
}

/// Device state after an IN completion: a pending address moves the device
/// to Addressed, else the state is kept.
pub open spec fn spec_tx_state(state: UsbState, pending: Option<u8>) -> UsbState {
    match pending {
        Some(a) => UsbState::Addressed(a),
        None => state,
    }
}

/// Everything one receive pass does: the RX byte count is re-armed, the
/// endpoint register and the address latch move as the SETUP record says,
/// and the device-address register, state and all other registers are
/// untouched.
pub open spec fn spec_rx_rel(pre: Usb, post: Usb, ev: UsbEvent) -> bool {
    &&& post.pma.pma_area@ == spec_word_set(pre.pma.pma_area@, 6, COUNT0_RX_ARMED)
    &&& post.ep0r.bits() == spec_rx_ep0r(pre.ep0r.bits(), pre.pma.pma_area@)
    &&& post.pending_address == spec_rx_pending(pre.pending_address, pre.ep0r.bits(), pre.pma.pma_area@)
    &&& post.daddr == pre.daddr
    &&& post.state == pre.state
    &&& post.cntr == pre.cntr
    &&& post.istr == pre.istr
    &&& post.btable == pre.btable
    &&& post.bcdr == pre.bcdr
    &&& post.descriptors == pre.descriptors
    &&& ev == spec_rx_event(pre.ep0r.bits(), pre.pma.pma_area@)
}

/// Everything one transmit pass does: the RX byte count is cleared, the
/// endpoint leaves its OUT-status substate with TX valid, and a pending
/// address is applied now that its status stage has completed.
pub open spec fn spec_tx_rel(pre: Usb, post: Usb, ev: UsbEvent) -> bool {
    &&& post.pma.pma_area@ == spec_word_set(pre.pma.pma_area@, 6, 0)
    &&& post.ep0r.bits() == (pre.ep0r.bits() & 0x7f4f) | 0x0130
    &&& post.pending_address is None
    &&& post.daddr == spec_tx_daddr(pre.daddr, pre.pending_address)
    &&& post.state == spec_tx_state(pre.state, pre.pending_address)
    &&& post.cntr == pre.cntr
    &&& post.istr == pre.istr
    &&& post.btable == pre.btable
    &&& post.bcdr == pre.bcdr
    &&& post.descriptors == pre.descriptors
    &&& ev == UsbEvent::TxHandled { applied_address: pre.pending_address }
}

/// Everything a bus reset does, but for the interrupt flag the caller
/// clears: endpoint 0's buffer descriptor is reprogrammed (TX at 0x40 with
/// 0 bytes, RX at 0x20 armed for a full packet), endpoint 0 becomes a
/// control endpoint with TX=Nak and RX=Valid, the device address register
/// is reset with the function enabled, any in-flight transfer is aborted,
/// and the state returns to Reset.
pub open spec fn spec_reset_rel(pre: Usb, post: Usb) -> bool {
    &&& post.pma.pma_area@ == spec_word_set(
        spec_word_set(spec_word_set(spec_word_set(pre.pma.pma_area@, 0, 0x40), 2, 0), 4, 0x20),
        6, COUNT0_RX_ARMED)
    &&& post.ep0r.bits() == 0x3220 | (pre.ep0r.bits() & 0x0800)
    &&& post.daddr == DADDR_EF
    &&& post.state is Reset
    &&& post.pending_address is None
    &&& post.cntr == pre.cntr
    &&& post.btable == pre.btable
    &&& post.bcdr == pre.bcdr
    &&& post.descriptors == pre.descriptors
}

impl Usb {
    /// The packet memory keeps its full extent.
    pub open spec fn wf(&self) -> bool {
        self.pma.pma_area.wf()
    }

    /// One-time initialization.  Clock enable and pin muxing are platform
    /// work outside this model; here the packet memory is zeroed, the
    /// buffer table reset, the interrupt masks programmed, pending
    /// interrupts cleared, the function enabled and the pull-up turned on.
    pub fn usb(descriptors: Descriptors) -> (r: Usb)
        ensures
            r.wf(),
            r.cntr == 0x9c00,
            r.istr == 0,
            r.daddr == DADDR_EF,
            r.btable == 0,
            r.bcdr == 0x8000,
            r.ep0r.bits() == 0,
            r.pma.pma_area@ == Seq::new(PMA_SIZE as nat, |i: int| 0u8),
            r.state is BootReset,
            r.pending_address is None,
            r.descriptors == descriptors,
    {
        let mut pma = PMA::new();
        pma.zero();
        let cntr: u16 = CNTR_CTRM | CNTR_WKUPM | CNTR_SUSPM | CNTR_RESETM;
        proof {
            assert(CNTR_CTRM | CNTR_WKUPM | CNTR_SUSPM | CNTR_RESETM == 0x9c00) by (bit_vector);
        }
        Usb {
            cntr,
            istr: 0,
            daddr: DADDR_EF,
            btable: 0,
            bcdr: 0x8000,
            ep0r: EpReg::new(0),
            pma,
            state: UsbState::BootReset,
            pending_address: None,
            descriptors,
        }
    }

    /// Handles a latched bus reset: reprograms endpoint 0's buffer
    /// descriptor and register and re-enables the function at address 0.
    /// A reset unconditionally aborts any in-flight transfer.
    pub fn reset(&mut self)
        requires
            old(self).wf(),
        ensures
            final(self).wf(),
            spec_reset_rel(*old(self), *final(self)),
            final(self).istr == old(self).istr,
            spec_word_at(final(self).pma.pma_area@, 0) == 0x40,
            spec_word_at(final(self).pma.pma_area@, 2) == 0,
            spec_word_at(final(self).pma.pma_area@, 4) == 0x20,
            spec_word_at(final(self).pma.pma_area@, 6) == COUNT0_RX_ARMED,
            final(self).ep0r.bits() & 0x0600 == EP_TYPE_CONTROL,
            final(self).ep0r.bits() & EP_TX_MASK == EP_TX_NAK,
            final(self).ep0r.bits() & EP_RX_MASK == EP_RX_VALID,
    {
        let _ = self.pma.pma_area.set_u16(0, 0x40);
        let _ = self.pma.pma_area.set_u16(2, 0);
        let _ = self.pma.pma_area.set_u16(4, 0x20);
        let _ = self.pma.pma_area.set_u16(6, COUNT0_RX_ARMED);

        // Program every field of the endpoint register in one store: the
        // plain fields are written directly, the toggle fields are XORed
        // with their current value so they land on control/Nak/Valid with
        // both data toggles clear, and the completion flags are dropped.
        let r = self.ep0r.read();
        self.ep0r.write(EP_TYPE_CONTROL | ((r & 0x7070) ^ 0x3020));

        self.daddr = DADDR_EF;
        self.state = UsbState::Reset;
        self.pending_address = None;

        proof {
            let b = old(self).ep0r.bits();
            assert(crate::usb::usb_ext::spec_reg_after_write(b,
                EP_TYPE_CONTROL | ((b & 0x7070) ^ 0x3020)) == 0x3220 | (b & 0x0800))
                by (bit_vector);
            assert(((0x3220u16 | (b & 0x0800)) & 0x0600 == 0x0200)
                && ((0x3220u16 | (b & 0x0800)) & 0x0030 == 0x0020)
                && ((0x3220u16 | (b & 0x0800)) & 0x3000 == 0x3000)) by (bit_vector);
            let s0 = old(self).pma.pma_area@;
            let s1 = spec_word_set(s0, 0, 0x40);
            let s2 = spec_word_set(s1, 2, 0);
            let s3 = spec_word_set(s2, 4, 0x20);
            crate::usb::pma::lemma_word_round_trip(s0, 0, 0x40, 0);
            crate::usb::pma::lemma_word_set_other(s1, 0, 2, 0);
            crate::usb::pma::lemma_word_set_other(s2, 0, 4, 0x20);
            crate::usb::pma::lemma_word_set_other(s3, 0, 6, COUNT0_RX_ARMED);
            crate::usb::pma::lemma_word_round_trip(s1, 2, 0, 0);
            crate::usb::pma::lemma_word_set_other(s2, 2, 4, 0x20);
            crate::usb::pma::lemma_word_set_other(s3, 2, 6, COUNT0_RX_ARMED);
            crate::usb::pma::lemma_word_round_trip(s2, 4, 0x20, 0);
            crate::usb::pma::lemma_word_set_other(s3, 4, 6, COUNT0_RX_ARMED);
            crate::usb::pma::lemma_word_round_trip(s3, 6, COUNT0_RX_ARMED, 0);
        }
    }

    /// Decodes the SETUP record at the head of endpoint 0's receive buffer
    /// into its (direction, type, recipient) fields, request code, value,
    /// index and length, and re-arms the RX byte count so the next
    /// transaction is accepted without delay.
    pub fn parse_ctrl_request(&mut self) -> (r: ((Option<Direction>, Option<Type>, Option<
        Destination>), Option<UsbRequest>, u16, u16, u16))
        requires
            old(self).wf(),
        ensures
            final(self).wf(),
            final(self).pma.pma_area@ == spec_word_set(old(self).pma.pma_area@, 6, COUNT0_RX_ARMED),
            final(self).ep0r == old(self).ep0r,
            final(self).cntr == old(self).cntr,
            final(self).istr == old(self).istr,
            final(self).daddr == old(self).daddr,
            final(self).btable == old(self).btable,
            final(self).bcdr == old(self).bcdr,
            final(self).state == old(self).state,
            final(self).pending_address == old(self).pending_address,
            final(self).descriptors == old(self).descriptors,
            r.0.0 == Direction::spec_from_bits(spec_setup_request_type(old(self).pma.pma_area@)),
            r.0.1 == Type::spec_from_bits(spec_setup_request_type(old(self).pma.pma_area@)),
            r.0.2 == Destination::spec_from_bits(spec_setup_request_type(old(self).pma.pma_area@)),
            r.1 == UsbRequest::spec_from_byte(spec_setup_request(old(self).pma.pma_area@)),
            r.2 == spec_setup_value(old(self).pma.pma_area@),
            r.3 == spec_setup_index(old(self).pma.pma_area@),
            r.4 == spec_setup_length(old(self).pma.pma_area@),
    {
        let request16 = match self.pma.pma_area.get_u16(0x20) {
            Ok(v) => v,
            Err(_) => unreached(),
        };
        let value = match self.pma.pma_area.get_u16(0x22) {
            Ok(v) => v,
            Err(_) => unreached(),
        };
        let index = match self.pma.pma_area.get_u16(0x24) {
            Ok(v) => v,
            Err(_) => unreached(),
        };
        let length = match self.pma.pma_area.get_u16(0x26) {
            Ok(v) => v,
            Err(_) => unreached(),
        };

        let _ = self.pma.pma_area.set_u16(6, COUNT0_RX_ARMED);

        proof {
            assert(request16 & 0xff < 256 && (request16 >> 8) & 0xff < 256) by (bit_vector);
        }
        let request_type: u8 = (request16 & 0xff) as u8;
        let request_code: u8 = ((request16 >> 8) & 0xff) as u8;
        let request = UsbRequest::from_byte(request_code);

        (
            (
                Direction::from_bits(request_type),
                Type::from_bits(request_type),
                Destination::from_bits(request_type),
            ),
            request,
            value,
            index,
            length,
        )
    }

    /// One receive pass: re-arms the RX byte count, then dispatches a
    /// SETUP record on its (recipient, type, direction, code) tuple, or
    /// reads and drops a DATA OUT packet.  The device-address register is
    /// never written here: a SetAddress value is only latched, per the
    /// protocol's ordering of address assignment.
    pub fn rx(&mut self) -> (ev: UsbEvent)
        requires
            old(self).wf(),
        ensures
            final(self).wf(),
            spec_rx_rel(*old(self), *final(self), ev),
    {
        let ghost pma0 = old(self).pma.pma_area@;
        let ghost rt = spec_setup_request_type(pma0);
        let ghost rq = spec_setup_request(pma0);
        let setup = self.ep0r.read() & EP_SETUP != 0;
        if setup {
            let ((direction, typ, destination), request, value, index, length) =
                self.parse_ctrl_request();
            match ((direction, typ, destination), request) {
                (
                    (Some(Direction::OUT), Some(Type::Standard), Some(Destination::Device)),
                    Some(UsbRequest::GetStatus),
                ) => {
                    proof {
                        assert(rt & 0x80 != 0x80 && rt & 0x60 == 0x00 && rt & 0x03 == 0x00
                            ==> rt & 0xe3 == 0x00) by (bit_vector);
                    }
                    self.ep0r.toggle_tx_stall();
                    let bits = self.ep0r.read();
                    UsbEvent::GetStatus { ep0r: bits }
                },
                (
                    (Some(Direction::OUT), Some(Type::Standard), Some(Destination::Device)),
                    Some(UsbRequest::SetAddress),
                ) => {
                    proof {
                        assert(rt & 0x80 != 0x80 && rt & 0x60 == 0x00 && rt & 0x03 == 0x00
                            ==> rt & 0xe3 == 0x00) by (bit_vector);
                        assert(value & 0x7f < 128) by (bit_vector);
                    }
                    let address: u8 = (value & 0x7f) as u8;
                    self.pending_address = Some(address);
                    self.ep0r.toggle_0();
                    UsbEvent::AddressLatched { address }
                },
                (
                    (Some(Direction::IN), Some(Type::Standard), Some(Destination::Device)),
                    Some(UsbRequest::GetDescriptor),
                ) => {
                    proof {
                        assert(rt & 0x80 == 0x80 && rt & 0x60 == 0x00 && rt & 0x03 == 0x00
                            ==> rt & 0xe3 == 0x80) by (bit_vector);
                        assert(rt & 0xe3 == 0x80 ==> rt & 0xe3 != 0x00) by (bit_vector);
                    }
                    UsbEvent::DescriptorRequested {
                        request: UsbRequest::GetDescriptor,
                        value,
                        index,
                        length,
                    }
                },
                _ => {
                    proof {
                        assert(rt & 0xe3 == 0x00 ==> (rt & 0x80 != 0x80 && rt & 0x60 == 0x00
                            && rt & 0x03 == 0x00)) by (bit_vector);
                        assert(rt & 0xe3 == 0x80 ==> (rt & 0x80 == 0x80 && rt & 0x60 == 0x00
                            && rt & 0x03 == 0x00)) by (bit_vector);
                        assert(!(spec_is_out_std_device(rt) && rq == 0x00));
                        assert(!(spec_is_out_std_device(rt) && rq == 0x05));
                        assert(!(spec_is_in_std_device(rt) && rq == 0x06));
                    }
                    UsbEvent::Unrecognized { direction, typ, destination, request }
                },
            }
        } else {
            let word = match self.pma.pma_area.get_u16(6) {
                Ok(v) => v,
                Err(_) => unreached(),
            };
            let count = word & 0x03ff;
            let _ = self.pma.pma_area.set_u16(6, COUNT0_RX_ARMED);
            UsbEvent::DataOut { count }
        }
    }

    /// One transmit pass: on endpoint-0 IN readiness clears the RX byte
    /// count and advances the endpoint out of its OUT-status substate.  A
    /// pending address has just had its status stage confirmed, so it is
    /// applied to the device-address register now, and the device becomes
    /// Addressed.
    pub fn tx(&mut self) -> (ev: UsbEvent)
        requires
            old(self).wf(),
        ensures
            final(self).wf(),
            spec_tx_rel(*old(self), *final(self), ev),
    {
        let _ = self.pma.pma_area.set_u16(6, 0);
        self.ep0r.toggle_tx_out();
        match self.pending_address {
            Some(address) => {
                self.daddr = DADDR_EF | address;
                self.state = UsbState::Addressed(address);
                self.pending_address = None;
                UsbEvent::TxHandled { applied_address: Some(address) }
            },
            None => UsbEvent::TxHandled { applied_address: None },
        }
    }

    /// Branches on the completed transaction's direction: host-to-device
    /// goes to [`Usb::rx`], device-to-host to [`Usb::tx`].
    pub fn do_work(&mut self) -> (ev: UsbEvent)
        requires
            old(self).wf(),
        ensures
            final(self).wf(),
            old(self).istr & ISTR_DIR != 0 ==> spec_rx_rel(*old(self), *final(self), ev),
            old(self).istr & ISTR_DIR == 0 ==> spec_tx_rel(*old(self), *final(self), ev),
    {
        if self.istr & ISTR_DIR != 0 {
            self.rx()
        } else {
            self.tx()
        }
    }

    /// One pass of the interrupt handler, in order: a latched RESET is
    /// cleared and handled, then the handler returns; a latched ERROR is
    /// cleared and the transaction dropped; the ignored flags (suspend,
    /// start-of-frame, expected-start-of-frame) are cleared; and a pending
    /// transaction-complete condition on endpoint 0 is dispatched on its
    /// direction.  This ordering is the engine's entire stage tracking.
    pub fn interrupt(&mut self) -> (ev: UsbEvent)
        requires
            old(self).wf(),
        ensures
            final(self).wf(),
            old(self).istr & ISTR_RESET != 0 ==> spec_reset_rel(*old(self), *final(self))
                && final(self).istr == old(self).istr & !ISTR_RESET
                && ev == UsbEvent::ResetHandled,
            old(self).istr & ISTR_RESET == 0 && old(self).istr & ISTR_ERR != 0
                ==> *final(self) == (Usb { istr: old(self).istr & !ISTR_ERR, ..*old(self) })
                    && ev == UsbEvent::ErrorCleared,
            old(self).istr & ISTR_RESET == 0 && old(self).istr & ISTR_ERR == 0 ==> ({
                let mid = (Usb {
                    istr: old(self).istr & !(ISTR_SUSP | ISTR_SOF | ISTR_ESOF),
                    ..*old(self)
                });
                &&& (mid.istr & ISTR_CTR != 0 && mid.istr & ISTR_EP_ID == 0
                    && mid.istr & ISTR_DIR != 0 ==> spec_rx_rel(mid, *final(self), ev))
                &&& (mid.istr & ISTR_CTR != 0 && mid.istr & ISTR_EP_ID == 0
                    && mid.istr & ISTR_DIR == 0 ==> spec_tx_rel(mid, *final(self), ev))
                &&& (!(mid.istr & ISTR_CTR != 0 && mid.istr & ISTR_EP_ID == 0)
                    ==> *final(self) == mid && ev == UsbEvent::Idle)
            }),
    {
        let istr = self.istr;
        if istr & ISTR_RESET != 0 {
            self.istr = istr & !ISTR_RESET;
            self.reset();
            return UsbEvent::ResetHandled;
        }
        if istr & ISTR_ERR != 0 {
            self.istr = istr & !ISTR_ERR;
            return UsbEvent::ErrorCleared;
        }

        self.istr = istr & !(ISTR_SUSP | ISTR_SOF | ISTR_ESOF);

        let istr2 = self.istr;
        if istr2 & ISTR_CTR != 0 {
            let ep = istr2 & ISTR_EP_ID;
            let dir = istr2 & ISTR_DIR != 0;
            if ep == 0 {
                if dir {
                    return self.rx();
                } else {
                    return self.tx();
                }
            }
        }
        UsbEvent::Idle
    }

    /// Stands for the peripheral latching interrupt-status flags: the
    /// interrupt glue of a target build reads the hardware register and
    /// presents its content here before calling [`Usb::interrupt`].
    pub fn hw_set_istr(&mut self, bits: u16)
        ensures
            *final(self) == (Usb { istr: bits, ..*old(self) }),
    {
        self.istr = bits;
    }

    /// Stands for the peripheral completing a SETUP transaction on
    /// endpoint 0: the record lands at the head of the receive buffer, the
    /// byte count joins the capacity marker, the SETUP and RX-completion
    /// flags rise, and a host-to-device completion is signalled.
    pub fn hw_receive_setup(&mut self, bytes: &[u8])
        requires
            old(self).wf(),
            bytes@.len() <= MAX_PACKET_SIZE,
        ensures
            final(self).wf(),
            final(self).pma.pma_area@ == spec_word_set(
                spec_splice(old(self).pma.pma_area@, 0x20, bytes@),
                6,
                COUNT0_RX_ARMED | (bytes@.len() as u16),
            ),
            final(self).ep0r.bits() == old(self).ep0r.bits() | (EP_SETUP | EP_CTR_RX),
            final(self).istr == old(self).istr | (ISTR_CTR | ISTR_DIR),
            final(self).cntr == old(self).cntr,
            final(self).daddr == old(self).daddr,
            final(self).btable == old(self).btable,
            final(self).bcdr == old(self).bcdr,
            final(self).state == old(self).state,
            final(self).pending_address == old(self).pending_address,
            final(self).descriptors == old(self).descriptors,
    {
        let _ = self.pma.pma_area.write_buffer_u8(0x20, bytes);
        let count: u16 = COUNT0_RX_ARMED | (bytes.len() as u16);
        let _ = self.pma.pma_area.set_u16(6, count);
        self.ep0r.hw_latch(EP_SETUP | EP_CTR_RX);
        self.istr = self.istr | (ISTR_CTR | ISTR_DIR);
    }

    /// Stands for the peripheral completing an IN transaction on endpoint
    /// 0: the TX-completion flag rises and a device-to-host completion is
    /// signalled.
    pub fn hw_transmit_complete(&mut self)
        requires
            old(self).wf(),
        ensures
            final(self).wf(),
            final(self).ep0r.bits() == old(self).ep0r.bits() | EP_CTR_TX,
            final(self).istr == (old(self).istr | ISTR_CTR) & !ISTR_DIR,
            final(self).pma == old(self).pma,
            final(self).cntr == old(self).cntr,
            final(self).daddr == old(self).daddr,
            final(self).btable == old(self).btable,
            final(self).bcdr == old(self).bcdr,
            final(self).state == old(self).state,
            final(self).pending_address == old(self).pending_address,
            final(self).descriptors == old(self).descriptors,
    {
        self.ep0r.hw_latch(EP_CTR_TX);
        self.istr = (self.istr | ISTR_CTR) & !ISTR_DIR;
    }
}

/// An 8-byte SETUP record landing at the head of the receive buffer, with
/// the byte count recorded at the buffer descriptor, decodes field by
/// field: `bmRequestType`, `bRequest`, then little-endian `wValue`,
/// `wIndex` and `wLength`.
pub proof fn lemma_setup_decode(pma: Seq<u8>, b: Seq<u8>, count: u16)
    requires
        pma.len() == PMA_SIZE,
        b.len() == 8,
    ensures
        ({
            let pma2 = spec_word_set(spec_splice(pma, 0x20, b), 6, count);
            &&& spec_setup_request_type(pma2) == b[0]
            &&& spec_setup_request(pma2) == b[1]
            &&& spec_setup_value(pma2) == (b[2] as u16) | ((b[3] as u16) << 8)
            &&& spec_setup_index(pma2) == (b[4] as u16) | ((b[5] as u16) << 8)
            &&& spec_setup_length(pma2) == (b[6] as u16) | ((b[7] as u16) << 8)
        }),
{
    let s1 = spec_splice(pma, 0x20, b);
    crate::usb::pma::lemma_buffer_fidelity(pma, 0x20, b);
    let pma2 = spec_word_set(s1, 6, count);
    assert forall|i: int| 0 <= i < 8 implies pma2[0x20 + i] == b[i] by {
        assert(s1[0x20 + i] == b[i]);
    }
    let x = b[0];
    let y = b[1];
    assert(((((x as u16) | ((y as u16) << 8)) & 0xff) as u8 == x)
        && (((((x as u16) | ((y as u16) << 8)) >> 8) & 0xff) as u8 == y)) by (bit_vector);
}

/// Address sequencing: a SetAddress SETUP latches the requested 7-bit
/// address — the receive pass leaves the device-address register untouched,
/// as [`spec_rx_rel`] states — and only the transmit pass that confirms the
/// transfer's status stage applies it and moves the device to Addressed.
pub proof fn lemma_address_sequencing(
    pre_daddr: u8,
    pre_pending: Option<u8>,
    pre_state: UsbState,
    ep0r: u16,
    pma: Seq<u8>,
)
    requires
        ep0r & EP_SETUP != 0,
        spec_is_out_std_device(spec_setup_request_type(pma)),
        spec_setup_request(pma) == 0x05,
    ensures
        spec_rx_pending(pre_pending, ep0r, pma) == Some((spec_setup_value(pma) & 0x7f) as u8),
        spec_tx_daddr(pre_daddr, spec_rx_pending(pre_pending, ep0r, pma))
            == DADDR_EF | ((spec_setup_value(pma) & 0x7f) as u8),
        spec_tx_state(pre_state, spec_rx_pending(pre_pending, ep0r, pma))
            == UsbState::Addressed((spec_setup_value(pma) & 0x7f) as u8),
{
}

} // verus!
