//! Packet memory: the dedicated buffer that stages endpoint data.
//!
//! The region is byte-addressed here; word access is decomposed into the two
//! byte lanes of the enclosing little-endian word, so no access can disturb
//! a neighbouring byte.  Every accessor checks its offset and reports a
//! [`Error::RangeError`] instead of touching adjacent memory.

use vstd::prelude::*;
use vcell::VolatileCell;
use crate::usb::Error;

verus! {

/// Size of the packet memory in bytes.
pub const PMA_SIZE: usize = 1024;

/// Backing store of the packet memory: one volatile cell per byte.
#[verifier::external_body]
pub struct PmaCells {
    cells: Vec<VolatileCell<u8>>,
}

/// The bytes held by the packet-memory cells, lowest address first.
pub uninterp spec fn pma_bytes(cells: PmaCells) -> Seq<u8>;

/// Relies on vcell::VolatileCell::new: each cell is created holding the
/// value given to it, so `n` cells made with 0 hold `n` zero bytes.
#[verifier::external_body]
fn pma_cells_new(n: usize) -> (r: PmaCells)
    ensures
        pma_bytes(r) == Seq::new(n as nat, |i: int| 0u8),
{
    PmaCells { cells: (0..n).map(|_| VolatileCell::new(0u8)).collect() }
}

/// Relies on vcell::VolatileCell::get: a volatile read returns the value
/// most recently stored in the cell.
#[verifier::external_body]
fn pma_cells_get(cells: &PmaCells, i: usize) -> (r: u8)
    requires
        i < pma_bytes(*cells).len(),
    ensures
        r == pma_bytes(*cells)[i as int],
{
    cells.cells[i].get()
}

/// Relies on vcell::VolatileCell::set: a volatile store replaces the value
/// of the one cell written, leaving every other cell as it was.
#[verifier::external_body]
fn pma_cells_set(cells: &mut PmaCells, i: usize, v: u8)
    requires
        i < pma_bytes(*old(cells)).len(),
    ensures
        pma_bytes(*final(cells)) == pma_bytes(*old(cells)).update(i as int, v),
{
    cells.cells[i].set(v);
}

/// The 16-bit word whose low byte sits at `offset`, little-endian.
pub open spec fn spec_word_at(s: Seq<u8>, offset: int) -> u16 {
    (s[offset] as u16) | ((s[offset + 1] as u16) << 8)
}

/// `s` with the 16-bit word at `offset` replaced by `v`, little-endian.
pub open spec fn spec_word_set(s: Seq<u8>, offset: int, v: u16) -> Seq<u8> {
    s.update(offset, (v & 0xff) as u8).update(offset + 1, ((v >> 8) & 0xff) as u8)
}

/// `s` with the bytes `b` written starting at `offset`.
pub open spec fn spec_splice(s: Seq<u8>, offset: int, b: Seq<u8>) -> Seq<u8> {
    s.take(offset) + b + s.skip(offset + b.len())
}

/// Writing a word and reading it back at the same offset returns the word
/// that was written; likewise for a single byte.
pub proof fn lemma_word_round_trip(s: Seq<u8>, offset: int, v: u16, b: u8)
    ensures
        0 <= offset && offset + 1 < s.len() ==> spec_word_at(spec_word_set(s, offset, v), offset) == v,
        0 <= offset < s.len() ==> s.update(offset, b)[offset] == b,
{
    if 0 <= offset && offset + 1 < s.len() {
        let lo = (v & 0xff) as u8;
        let hi = ((v >> 8) & 0xff) as u8;
        assert(((v & 0xff) as u8 as u16) | ((((v >> 8) & 0xff) as u8 as u16) << 8) == v)
            by (bit_vector);
        assert(spec_word_set(s, offset, v)[offset] == lo);
        assert(spec_word_set(s, offset, v)[offset + 1] == hi);
    }
}

/// Writing a word at one offset leaves the word at a disjoint offset
/// unchanged.
pub proof fn lemma_word_set_other(s: Seq<u8>, o1: int, o2: int, v: u16)
    requires
        0 <= o1,
        o1 + 1 < s.len(),
        0 <= o2,
        o2 + 1 < s.len(),
        o1 + 1 < o2 || o2 + 1 < o1,
    ensures
        spec_word_at(spec_word_set(s, o2, v), o1) == spec_word_at(s, o1),
{
}

/// A spliced-in byte sequence reads back exactly, byte for byte, including a
/// final unpaired byte, and leaves every byte outside the written range.
pub proof fn lemma_buffer_fidelity(s: Seq<u8>, offset: int, b: Seq<u8>)
    requires
        0 <= offset,
        offset + b.len() <= s.len(),
    ensures
        spec_splice(s, offset, b).len() == s.len(),
        forall|i: int| 0 <= i < b.len() ==> spec_splice(s, offset, b)[offset + i] == b[i],
        forall|j: int| 0 <= j < offset ==> spec_splice(s, offset, b)[j] == s[j],
        forall|j: int| offset + b.len() <= j < s.len() ==> spec_splice(s, offset, b)[j] == s[j],
{
}

/// A view of one endpoint's buffer-descriptor-table entry.
#[derive(Debug, Copy, Clone, PartialEq, Eq, Structural)]
pub struct USB_EpBufferDescriptor {
    /// Offset into the packet memory of the transmit buffer.
    pub ADDR_TX: u16,
    /// Bytes staged for transmission.
    pub COUNT_TX: u16,
    /// Offset into the packet memory of the receive buffer.
    pub ADDR_RX: u16,
    /// Capacity marker and received byte count.
    pub COUNT_RX: u16,
}

/// Byte- and word-granular access to the packet memory.
pub struct PMA_Area {
    pub cells: PmaCells,
}

impl View for PMA_Area {
    type V = Seq<u8>;

    open spec fn view(&self) -> Seq<u8> {
        pma_bytes(self.cells)
    }
}

impl PMA_Area {
    /// The region always spans exactly [`PMA_SIZE`] bytes.
    pub open spec fn wf(&self) -> bool {
        self@.len() == PMA_SIZE
    }

    pub fn new() -> (r: PMA_Area)
        ensures
            r.wf(),
            r@ == Seq::new(PMA_SIZE as nat, |i: int| 0u8),
    {
        PMA_Area { cells: pma_cells_new(PMA_SIZE) }
    }

    /// Single byte read, checked against the region bounds.
    pub fn get_u8(&self, offset: usize) -> (r: Result<u8, Error>)
        requires
            self.wf(),
        ensures
            offset < PMA_SIZE ==> r == Ok::<u8, Error>(self@[offset as int]),
            offset >= PMA_SIZE ==> r == Err::<u8, Error>(Error::RangeError),
    {
        if offset < PMA_SIZE {
            Ok(pma_cells_get(&self.cells, offset))
        } else {
            Err(Error::RangeError)
        }
    }

    /// Single byte write; the sibling byte of the enclosing word is untouched.
    pub fn set_u8(&mut self, offset: usize, val: u8) -> (r: Result<(), Error>)
        requires
            old(self).wf(),
        ensures
            final(self).wf(),
            offset < PMA_SIZE ==> r == Ok::<(), Error>(())
                && final(self)@ == old(self)@.update(offset as int, val),
            offset >= PMA_SIZE ==> r == Err::<(), Error>(Error::RangeError)
                && final(self)@ == old(self)@,
    {
        if offset < PMA_SIZE {
            pma_cells_set(&mut self.cells, offset, val);
            Ok(())
        } else {
            Err(Error::RangeError)
        }
    }

    /// Little-endian word read from the two byte lanes at `offset`.
    pub fn get_u16(&self, offset: usize) -> (r: Result<u16, Error>)
        requires
            self.wf(),
        ensures
            offset + 1 < PMA_SIZE ==> r == Ok::<u16, Error>(spec_word_at(self@, offset as int)),
            offset + 1 >= PMA_SIZE ==> r == Err::<u16, Error>(Error::RangeError),
    {
        if offset < PMA_SIZE - 1 {
            let lo = pma_cells_get(&self.cells, offset);
            let hi = pma_cells_get(&self.cells, offset + 1);
            Ok((lo as u16) | ((hi as u16) << 8))
        } else {
            Err(Error::RangeError)
        }
    }

    /// Little-endian word write into the two byte lanes at `offset`.
    pub fn set_u16(&mut self, offset: usize, val: u16) -> (r: Result<(), Error>)
        requires
            old(self).wf(),
        ensures
            final(self).wf(),
            offset + 1 < PMA_SIZE ==> r == Ok::<(), Error>(())
                && final(self)@ == spec_word_set(old(self)@, offset as int, val),
            offset + 1 >= PMA_SIZE ==> r == Err::<(), Error>(Error::RangeError)
                && final(self)@ == old(self)@,
    {
        if offset < PMA_SIZE - 1 {
            proof {
                assert(val & 0xff < 256) by (bit_vector);
                assert((val >> 8) & 0xff < 256) by (bit_vector);
            }
            pma_cells_set(&mut self.cells, offset, (val & 0xff) as u8);
            pma_cells_set(&mut self.cells, offset + 1, ((val >> 8) & 0xff) as u8);
            Ok(())
        } else {
            Err(Error::RangeError)
        }
    }

    /// Copy of the bytes in `[offset, end)`.
    pub fn borrow_slice(&self, offset: usize, end: usize) -> (r: Result<Vec<u8>, Error>)
        requires
            self.wf(),
        ensures
            offset <= end <= PMA_SIZE ==> r is Ok
                && r->Ok_0@ == self@.subrange(offset as int, end as int),
            !(offset <= end <= PMA_SIZE) ==> r == Err::<Vec<u8>, Error>(Error::RangeError),
    {
        if offset <= end && end <= PMA_SIZE {
            let mut out: Vec<u8> = Vec::new();
            let mut i: usize = offset;
            while i < end
                invariant
                    offset <= i <= end <= PMA_SIZE,
                    self.wf(),
                    out@ == self@.subrange(offset as int, i as int),
                decreases end - i,
            {
                out.push(pma_cells_get(&self.cells, i));
                i = i + 1;
                proof {
                    assert(out@ =~= self@.subrange(offset as int, i as int));
                }
            }
            Ok(out)
        } else {
            Err(Error::RangeError)
        }
    }

    /// The buffer-descriptor-table entry of endpoint `ep`: four words at
    /// offset `8 * ep`.
    pub fn get_buffer_descriptor(&self, ep: usize) -> (r: Result<USB_EpBufferDescriptor, Error>)
        requires
            self.wf(),
        ensures
            8 * ep + 7 < PMA_SIZE ==> r is Ok
                && r->Ok_0 == (USB_EpBufferDescriptor {
                    ADDR_TX: spec_word_at(self@, 8 * ep),
                    COUNT_TX: spec_word_at(self@, 8 * ep + 2),
                    ADDR_RX: spec_word_at(self@, 8 * ep + 4),
                    COUNT_RX: spec_word_at(self@, 8 * ep + 6),
                }),
            8 * ep + 7 >= PMA_SIZE ==> r == Err::<USB_EpBufferDescriptor, Error>(Error::RangeError),
    {
        if ep < PMA_SIZE / 8 {
            let base: usize = 8 * ep;
            let addr_tx = match self.get_u16(base) {
                Ok(v) => v,
                Err(_) => unreached(),
            };
            let count_tx = match self.get_u16(base + 2) {
                Ok(v) => v,
                Err(_) => unreached(),
            };
            let addr_rx = match self.get_u16(base + 4) {
                Ok(v) => v,
                Err(_) => unreached(),
            };
            let count_rx = match self.get_u16(base + 6) {
                Ok(v) => v,
                Err(_) => unreached(),
            };
            Ok(USB_EpBufferDescriptor {
                ADDR_TX: addr_tx,
                COUNT_TX: count_tx,
                ADDR_RX: addr_rx,
                COUNT_RX: count_rx,
            })
        } else {
            Err(Error::RangeError)
        }
    }

    /// Copies `buf` into the region starting at `offset`, one byte lane at a
    /// time; a trailing odd byte is committed like any other.
    pub fn write_buffer_u8(&mut self, offset: usize, buf: &[u8]) -> (r: Result<(), Error>)
        requires
            old(self).wf(),
        ensures
            final(self).wf(),
            offset + buf@.len() <= PMA_SIZE ==> r == Ok::<(), Error>(())
                && final(self)@ == spec_splice(old(self)@, offset as int, buf@),
            offset + buf@.len() > PMA_SIZE ==> r == Err::<(), Error>(Error::RangeError)
                && final(self)@ == old(self)@,
    {
        if buf.len() <= PMA_SIZE && offset <= PMA_SIZE - buf.len() {
            let mut i: usize = 0;
            while i < buf.len()
                invariant
                    i <= buf@.len(),
                    offset + buf@.len() <= PMA_SIZE,
                    self.wf(),
                    forall|j: int| 0 <= j < i ==> self@[offset + j] == buf@[j],
                    forall|j: int| 0 <= j < PMA_SIZE && !(offset <= j < offset + i)
                        ==> self@[j] == old(self)@[j],
                decreases buf@.len() - i,
            {
                pma_cells_set(&mut self.cells, offset + i, buf[i]);
                i = i + 1;
            }
            proof {
                assert(self@ =~= spec_splice(old(self)@, offset as int, buf@));
            }
            Ok(())
        } else {
            Err(Error::RangeError)
        }
    }
}

/// The packet-memory peripheral as a whole.
pub struct PMA {
    pub pma_area: PMA_Area,
}

impl PMA {
    pub fn new() -> (r: PMA)
        ensures
            r.pma_area.wf(),
            r.pma_area@ == Seq::new(PMA_SIZE as nat, |i: int| 0u8),
    {
        PMA { pma_area: PMA_Area::new() }
    }

    /// Clears the entire region; every byte reads back zero afterwards.
    pub fn zero(&mut self)
        requires
            old(self).pma_area.wf(),
        ensures
            final(self).pma_area.wf(),
            final(self).pma_area@ == Seq::new(PMA_SIZE as nat, |i: int| 0u8),
    {
        let mut i: usize = 0;
        while i < PMA_SIZE
            invariant
                i <= PMA_SIZE,
                self.pma_area.wf(),
                forall|j: int| 0 <= j < i ==> self.pma_area@[j] == 0u8,
            decreases PMA_SIZE - i,
        {
            let _ = self.pma_area.set_u8(i, 0);
            i = i + 1;
        }
        proof {
            assert(self.pma_area@ =~= Seq::new(PMA_SIZE as nat, |j: int| 0u8));
        }
    }
}

} // verus!
