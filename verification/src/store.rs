//! The durable configuration store: one interval, in seconds, that survives
//! the process.

use crate::region::{
    layout_of, region_bytes, whole_pages, DurableRegion, RegionLayout, CELL_LAYOUT_VERSION,
    INTERVAL_BYTES,
};
use ic_stable_structures::cell::{InitError, ValueError};
use ic_stable_structures::memory_manager::VirtualMemory;
use ic_stable_structures::{DefaultMemoryImpl, StableCell};
use vstd::prelude::*;

verus! {

/// The interval that a vacant region is given when it is first attached to.
pub const DEFAULT_INTERVAL_SECONDS: u64 = 10;

/// Trusted: the error of `StableCell::init`, as `ic_stable_structures`
/// declares it.
#[verifier::external_type_specification]
pub struct ExInitError(InitError);

/// Trusted: the error of `StableCell::set`, as `ic_stable_structures`
/// declares it.
#[verifier::external_type_specification]
pub struct ExValueError(ValueError);

/// A cell of `ic_stable_structures` that holds the interval and writes it to
/// its region on every assignment.
///
/// Trusted: the verifier does not look into the `StableCell`. The value in it
/// is known as [`cell_value`].
#[verifier::external_body]
pub struct IntervalCell {
    cell: StableCell<u64, VirtualMemory<DefaultMemoryImpl>>,
}

/// The value that the cell holds.
pub uninterp spec fn cell_value(cell: IntervalCell) -> u64;

/// Trusted: `StableCell::init`. Where the region holds a cell of the supported
/// layout, the call decodes its value; where it holds a cell of another
/// version, the call fails and says which; where it holds no cell, the call
/// writes one with `default_value`, and fails only if the region cannot take
/// the eight bytes of it. A stored value of another length than eight bytes
/// makes the decoding abort, so such a region is left out.
///
/// An empty region has to grow by a page for its first cell. The memory
/// manager behind the region aborts where the memory under it is exhausted,
/// as an allocation does; nothing here can tell that beforehand.
#[verifier::external_body]
fn cell_init(region: DurableRegion, default_value: u64) -> (r: Result<IntervalCell, InitError>)
    requires
        whole_pages(region_bytes(region)),
        !(layout_of(region_bytes(region)) is ForeignValue),
    ensures
        match layout_of(region_bytes(region)) {
            RegionLayout::Interval(stored) => r is Ok && cell_value(r->Ok_0) == stored,
            RegionLayout::IncompatibleVersion(found) => r == Err::<IntervalCell, InitError>(
                InitError::IncompatibleVersion {
                    last_supported_version: CELL_LAYOUT_VERSION,
                    decoded_version: found,
                },
            ),
            _ => match r {
                Ok(cell) => cell_value(cell) == default_value,
                Err(e) => e == (InitError::ValueTooLarge { value_size: INTERVAL_BYTES as u64 }),
            },
        },
{
    match StableCell::init(region.memory, default_value) {
        Ok(cell) => Ok(IntervalCell { cell }),
        Err(e) => Err(e),
    }
}

/// Trusted: `StableCell::get`, which returns the value in the cell.
#[verifier::external_body]
fn cell_get(cell: &IntervalCell) -> (value: u64)
    ensures
        value == cell_value(*cell),
{
    *cell.cell.get()
}

/// Trusted: `StableCell::set`. On success the cell holds `value` and the call
/// hands back what it held before. The call fails where the region cannot
/// take the eight bytes of the value, and the cell then holds what it held.
#[verifier::external_body]
fn cell_set(cell: &mut IntervalCell, value: u64) -> (r: Result<u64, ValueError>)
    ensures
        match r {
            Ok(previous) => previous == cell_value(*old(cell)) && cell_value(*final(cell)) == value,
            Err(e) => {
                &&& e == (ValueError::ValueTooLarge { value_size: INTERVAL_BYTES as u64 })
                &&& cell_value(*final(cell)) == cell_value(*old(cell))
            },
        },
{
    cell.cell.set(value)
}

/// Trusted: `StableCell::into_memory`, which gives the region back. The cell
/// has written its value there, behind a header of the supported layout.
#[verifier::external_body]
fn cell_into_region(cell: IntervalCell) -> (region: DurableRegion)
    ensures
        layout_of(region_bytes(region)) == RegionLayout::Interval(cell_value(cell)),
{
    DurableRegion { memory: cell.cell.into_memory() }
}

/// Why a region could not be attached to.
#[derive(Clone, Copy, Debug, PartialEq, Eq, Structural)]
pub enum StorageInitError {
    /// The region holds a cell whose layout has another version than the
    /// supported one.
    IncompatibleVersion { supported: u8, found: u8 },
    /// The region holds a cell whose value is no interval: it is `value_len`
    /// bytes long.
    ForeignValue { value_len: u32 },
    /// The region holds no cell and refused to grow for a new one of
    /// `value_size` bytes.
    NoSpace { value_size: u64 },
}

/// The region refused a write of `value_size` bytes.
#[derive(Clone, Copy, Debug, PartialEq, Eq, Structural)]
pub struct PersistWriteError {
    pub value_size: u64,
}

/// The durable configuration store. It owns the one persisted interval.
pub struct ConfigStore {
    cell: IntervalCell,
}

impl View for ConfigStore {
    type V = u64;

    /// The persisted interval, in seconds.
    closed spec fn view(&self) -> u64 {
        cell_value(self.cell)
    }
}

/// What attaching to a region of the given layout may return: the stored
/// interval where there is one, the default where there is no cell and the
/// region took a new one, and an error for every other region.
pub open spec fn attached(layout: RegionLayout, r: Result<ConfigStore, StorageInitError>) -> bool {
    match layout {
        RegionLayout::Interval(stored) => r is Ok && r->Ok_0@ == stored,
        RegionLayout::Vacant => match r {
            Ok(store) => store@ == DEFAULT_INTERVAL_SECONDS,
            Err(e) => e == (StorageInitError::NoSpace { value_size: INTERVAL_BYTES as u64 }),
        },
        RegionLayout::IncompatibleVersion(found) => r == Err::<ConfigStore, StorageInitError>(
            StorageInitError::IncompatibleVersion { supported: CELL_LAYOUT_VERSION, found },
        ),
        RegionLayout::ForeignValue(value_len) => r == Err::<ConfigStore, StorageInitError>(
            StorageInitError::ForeignValue { value_len },
        ),
    }
}

impl ConfigStore {
    /// Attaches to the region. A stored interval is kept as it is; a vacant
    /// region is given a cell with [`DEFAULT_INTERVAL_SECONDS`]. A region that
    /// holds anything else is refused.
    pub fn initialize(region: DurableRegion) -> (r: Result<ConfigStore, StorageInitError>)
        ensures
            attached(layout_of(region@), r),
    {
        match region.foreign_value_len() {
            Some(value_len) => Err(StorageInitError::ForeignValue { value_len }),
            None => ConfigStore::from_init(cell_init(region, DEFAULT_INTERVAL_SECONDS)),
        }
    }

    /// Turns what the cell's initialisation returned into a store, or into
    /// the reason why there is none.
    pub fn from_init(outcome: Result<IntervalCell, InitError>) -> (r: Result<
        ConfigStore,
        StorageInitError,
    >)
        ensures
            match outcome {
                Ok(cell) => r is Ok && r->Ok_0@ == cell_value(cell),
                Err(InitError::IncompatibleVersion { last_supported_version, decoded_version }) => r
                    == Err::<ConfigStore, StorageInitError>(
                    StorageInitError::IncompatibleVersion {
                        supported: last_supported_version,
                        found: decoded_version,
                    },
                ),
                Err(InitError::ValueTooLarge { value_size }) => r == Err::<
                    ConfigStore,
                    StorageInitError,
                >(StorageInitError::NoSpace { value_size }),
            },
    {
        match outcome {
            Ok(cell) => Ok(ConfigStore { cell }),
            Err(InitError::IncompatibleVersion { last_supported_version, decoded_version }) => Err(
                StorageInitError::IncompatibleVersion {
                    supported: last_supported_version,
                    found: decoded_version,
                },
            ),
            Err(InitError::ValueTooLarge { value_size }) => Err(
                StorageInitError::NoSpace { value_size },
            ),
        }
    }

    /// The persisted interval. Reading changes nothing.
    pub fn get(&self) -> (value: u64)
        ensures
            value == self@,
    {
        cell_get(&self.cell)
    }

    /// Overwrites the persisted interval. Where the region rejects the write,
    /// the interval stays what it was.
    pub fn set(&mut self, value: u64) -> (r: Result<(), PersistWriteError>)
        ensures
            match r {
                Ok(()) => final(self)@ == value,
                Err(e) => {
                    &&& e == (PersistWriteError { value_size: INTERVAL_BYTES as u64 })
                    &&& final(self)@ == old(self)@
                },
            },
    {
        let written = cell_set(&mut self.cell, value);
        ConfigStore::write_outcome(written)
    }

    /// Turns what the cell's assignment returned into the result of a write.
    pub fn write_outcome(written: Result<u64, ValueError>) -> (r: Result<(), PersistWriteError>)
        ensures
            r == match written {
                Ok(previous) => Ok::<(), PersistWriteError>(()),
                Err(ValueError::ValueTooLarge { value_size }) => Err::<(), PersistWriteError>(
                    PersistWriteError { value_size },
                ),
            },
    {
        match written {
            Ok(_) => Ok(()),
            Err(ValueError::ValueTooLarge { value_size }) => Err(PersistWriteError { value_size }),
        }
    }

    /// Gives up the store, as the end of the process does. What is left is
    /// the region, and the interval in it.
    pub fn into_region(self) -> (region: DurableRegion)
        ensures
            layout_of(region@) == RegionLayout::Interval(self@),
    {
        cell_into_region(self.cell)
    }
}

} // verus!
