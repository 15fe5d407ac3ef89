//! The durable region in which the interval lives, and the byte layout of
//! the cell that is kept there.

use ic_stable_structures::memory_manager::VirtualMemory;
use ic_stable_structures::{DefaultMemoryImpl, Memory};
use vstd::bytes::{spec_u32_from_le_bytes, spec_u64_from_le_bytes, u32_from_le_bytes};
use vstd::prelude::*;
use vstd::slice::slice_subrange;

verus! {

/// The slot of the memory manager that holds the interval. It never changes:
/// a process that comes back must address the bytes that its predecessor wrote.
pub const CONFIG_SLOT: u8 = 0;

/// The size of one page of durable memory, in bytes.
pub const PAGE_BYTES: u64 = 65536;

/// The length of the header that precedes a stored value.
pub const CELL_HEADER_BYTES: usize = 8;

/// The only cell layout that can be attached to.
pub const CELL_LAYOUT_VERSION: u8 = 1;

/// The length of a stored interval: one 64-bit integer.
pub const INTERVAL_BYTES: u32 = 8;

/// One slot of durable memory, as a memory manager hands it out. Its bytes
/// outlive the process. A value of this type is taken to be the only handle
/// on its slot, over a manager whose own bookkeeping is intact: the host that
/// makes the value answers for both.
///
/// Trusted: the field is a `VirtualMemory` of `ic_stable_structures`, which
/// the verifier does not look into. What it holds is known as
/// [`region_bytes`].
#[verifier::external_body]
pub struct DurableRegion {
    pub memory: VirtualMemory<DefaultMemoryImpl>,
}

/// The bytes of the region, from its first page to its last.
pub uninterp spec fn region_bytes(region: DurableRegion) -> Seq<u8>;

/// Trusted: `Memory::size` on the region's `VirtualMemory`. It returns the
/// number of pages that the region spans, so the region's bytes are that many
/// whole pages.
#[verifier::external_body]
fn region_pages(region: &DurableRegion) -> (pages: u64)
    ensures
        region_bytes(*region).len() == pages * PAGE_BYTES,
{
    region.memory.size()
}

/// Trusted: `Memory::read` on the region's `VirtualMemory`. It copies out the
/// `len` bytes that start at `offset`; a read that ends beyond the last page
/// aborts, so the range has to lie inside the region.
#[verifier::external_body]
fn region_read(region: &DurableRegion, offset: u64, len: usize) -> (bytes: Vec<u8>)
    requires
        offset + len <= region_bytes(*region).len(),
    ensures
        bytes@ == region_bytes(*region).subrange(offset as int, offset + len),
{
    let mut bytes = vec![0u8; len];
    region.memory.read(offset, &mut bytes);
    bytes
}

/// What a region can hold where the cell is expected.
#[derive(Clone, Copy, Debug, PartialEq, Eq, Structural)]
pub enum RegionLayout {
    /// No cell: the region is empty, or it does not start with the cell's
    /// magic bytes. Attaching writes a cell with the default value.
    Vacant,
    /// A cell of the supported layout that holds this interval.
    Interval(u64),
    /// A cell of another layout version.
    IncompatibleVersion(u8),
    /// A cell of the supported layout whose value has another length than an
    /// interval has.
    ForeignValue(u32),
}

/// The region spans whole pages.
pub open spec fn whole_pages(bytes: Seq<u8>) -> bool {
    bytes.len() % (PAGE_BYTES as nat) == 0
}

/// The bytes start with the magic of a cell, `SCL`.
pub open spec fn has_cell_magic(bytes: Seq<u8>) -> bool {
    &&& bytes.len() >= CELL_HEADER_BYTES
    &&& bytes[0] == 0x53
    &&& bytes[1] == 0x43
    &&& bytes[2] == 0x4c
}

/// The layout version in a cell's header.
pub open spec fn cell_version(bytes: Seq<u8>) -> u8
    recommends
        has_cell_magic(bytes),
{
    bytes[3]
}

/// The length of the stored value, which the header gives as a little-endian
/// 32-bit integer.
pub open spec fn cell_value_len(bytes: Seq<u8>) -> u32
    recommends
        has_cell_magic(bytes),
{
    spec_u32_from_le_bytes(bytes.subrange(4, 8))
}

/// Eight bytes read as a big-endian integer, which is how a cell encodes a
/// 64-bit value.
pub open spec fn be_u64(bytes: Seq<u8>) -> u64
    recommends
        bytes.len() == 8,
{
    spec_u64_from_le_bytes(bytes.reverse())
}

/// The interval that follows the header.
pub open spec fn cell_interval(bytes: Seq<u8>) -> u64
    recommends
        bytes.len() >= CELL_HEADER_BYTES + INTERVAL_BYTES,
{
    be_u64(bytes.subrange(CELL_HEADER_BYTES as int, CELL_HEADER_BYTES + INTERVAL_BYTES))
}

/// Reads the layout off the first bytes of a region.
pub open spec fn layout_of(bytes: Seq<u8>) -> RegionLayout {
    if !has_cell_magic(bytes) {
        RegionLayout::Vacant
    } else if cell_version(bytes) != CELL_LAYOUT_VERSION {
        RegionLayout::IncompatibleVersion(cell_version(bytes))
    } else if cell_value_len(bytes) != INTERVAL_BYTES {
        RegionLayout::ForeignValue(cell_value_len(bytes))
    } else {
        RegionLayout::Interval(cell_interval(bytes))
    }
}

impl View for DurableRegion {
    type V = Seq<u8>;

    /// The bytes that the region holds.
    open spec fn view(&self) -> Seq<u8> {
        region_bytes(*self)
    }
}

impl DurableRegion {
    /// Looks at the header for a stored value that is no interval. Such a
    /// region cannot be attached to; every other region can.
    pub fn foreign_value_len(&self) -> (found: Option<u32>)
        ensures
            whole_pages(self@),
            found == match layout_of(self@) {
                RegionLayout::ForeignValue(len) => Some(len),
                _ => None,
            },
    {
        let pages: u64 = region_pages(self);
        if pages == 0 {
            return None;
        }
        let header = region_read(self, 0, CELL_HEADER_BYTES);
        if header[0] != 0x53 || header[1] != 0x43 || header[2] != 0x4c {
            return None;
        }
        if header[3] != CELL_LAYOUT_VERSION {
            return None;
        }
        let len: u32 = u32_from_le_bytes(slice_subrange(header.as_slice(), 4, 8));
        assert(header@.subrange(4, 8) == self@.subrange(4, 8));
        if len == INTERVAL_BYTES {
            None
        } else {
            Some(len)
        }
    }
}

} // verus!
