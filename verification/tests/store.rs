use durable_timer::region::{DurableRegion, CONFIG_SLOT};
use durable_timer::store::{
    ConfigStore, PersistWriteError, StorageInitError, DEFAULT_INTERVAL_SECONDS,
};
use ic_stable_structures::cell::{InitError, ValueError};
use ic_stable_structures::memory_manager::{MemoryId, MemoryManager};
use ic_stable_structures::{DefaultMemoryImpl, Memory};

fn empty_region() -> DurableRegion {
    let manager = MemoryManager::init(DefaultMemoryImpl::default());
    DurableRegion { memory: manager.get(MemoryId::new(CONFIG_SLOT)) }
}

fn region_with(header_and_value: &[u8]) -> DurableRegion {
    let region = empty_region();
    assert_eq!(region.memory.grow(1), 0);
    region.memory.write(0, header_and_value);
    region
}

#[test]
fn the_slot_and_the_default_are_fixed() {
    assert_eq!(CONFIG_SLOT, 0);
    assert_eq!(DEFAULT_INTERVAL_SECONDS, 10);
}

#[test]
fn vacant_region_gets_the_default() {
    let store = ConfigStore::initialize(empty_region()).unwrap();
    assert_eq!(store.get(), 10);
}

#[test]
fn grown_region_without_a_cell_gets_the_default() {
    let region = region_with(&[0u8; 16]);
    let store = ConfigStore::initialize(region).unwrap();
    assert_eq!(store.get(), 10);
}

#[test]
fn almost_a_magic_is_no_cell() {
    let region = region_with(&[b'S', b'C', b'M', 1, 8, 0, 0, 0, 0, 0, 0, 0, 0, 0, 0, 42]);
    let store = ConfigStore::initialize(region).unwrap();
    assert_eq!(store.get(), 10);
}

#[test]
fn set_overwrites_the_interval() {
    let mut store = ConfigStore::initialize(empty_region()).unwrap();
    assert_eq!(store.set(60), Ok(()));
    assert_eq!(store.get(), 60);
    assert_eq!(store.set(61), Ok(()));
    assert_eq!(store.get(), 61);
}

#[test]
fn zero_and_the_largest_interval_are_stored() {
    let mut store = ConfigStore::initialize(empty_region()).unwrap();
    assert_eq!(store.set(0), Ok(()));
    assert_eq!(store.get(), 0);
    assert_eq!(store.set(u64::MAX), Ok(()));
    assert_eq!(store.get(), u64::MAX);
    let again = ConfigStore::initialize(store.into_region()).unwrap();
    assert_eq!(again.get(), u64::MAX);
}

#[test]
fn get_repeats_itself() {
    let mut store = ConfigStore::initialize(empty_region()).unwrap();
    store.set(33).unwrap();
    assert_eq!(store.get(), 33);
    assert_eq!(store.get(), 33);
    assert_eq!(store.get(), 33);
}

#[test]
fn attaching_again_keeps_the_interval() {
    let mut store = ConfigStore::initialize(empty_region()).unwrap();
    store.set(1234).unwrap();
    let region = store.into_region();
    let again = ConfigStore::initialize(region).unwrap();
    assert_eq!(again.get(), 1234);
    let once_more = ConfigStore::initialize(again.into_region()).unwrap();
    assert_eq!(once_more.get(), 1234);
}

#[test]
fn attaching_again_keeps_the_default() {
    let store = ConfigStore::initialize(empty_region()).unwrap();
    let again = ConfigStore::initialize(store.into_region()).unwrap();
    assert_eq!(again.get(), 10);
}

#[test]
fn the_interval_survives_a_new_memory_manager() {
    let backing = DefaultMemoryImpl::default();
    {
        let manager = MemoryManager::init(backing.clone());
        let region = DurableRegion { memory: manager.get(MemoryId::new(CONFIG_SLOT)) };
        let mut store = ConfigStore::initialize(region).unwrap();
        store.set(86_400).unwrap();
    }
    let manager = MemoryManager::init(backing);
    let region = DurableRegion { memory: manager.get(MemoryId::new(CONFIG_SLOT)) };
    let store = ConfigStore::initialize(region).unwrap();
    assert_eq!(store.get(), 86_400);
}

#[test]
fn another_slot_is_another_region() {
    let manager = MemoryManager::init(DefaultMemoryImpl::default());
    let region = DurableRegion { memory: manager.get(MemoryId::new(CONFIG_SLOT)) };
    let mut store = ConfigStore::initialize(region).unwrap();
    store.set(77).unwrap();
    let other = DurableRegion { memory: manager.get(MemoryId::new(CONFIG_SLOT + 1)) };
    let other_store = ConfigStore::initialize(other).unwrap();
    assert_eq!(other_store.get(), 10);
    assert_eq!(store.get(), 77);
}

#[test]
fn a_stored_interval_is_read_big_endian() {
    let region = region_with(&[b'S', b'C', b'L', 1, 8, 0, 0, 0, 1, 2, 3, 4, 5, 6, 7, 8]);
    let store = ConfigStore::initialize(region).unwrap();
    assert_eq!(store.get(), 0x0102_0304_0506_0708);
}

#[test]
fn the_region_holds_the_cell_layout_after_a_write() {
    let mut store = ConfigStore::initialize(empty_region()).unwrap();
    store.set(0x1122_3344_5566_7788).unwrap();
    let region = store.into_region();
    assert!(region.memory.size() >= 1);
    let mut bytes = [0u8; 16];
    region.memory.read(0, &mut bytes);
    assert_eq!(
        bytes,
        [b'S', b'C', b'L', 1, 8, 0, 0, 0, 0x11, 0x22, 0x33, 0x44, 0x55, 0x66, 0x77, 0x88]
    );
    assert_eq!(region.foreign_value_len(), None);
}

#[test]
fn another_layout_version_is_refused() {
    let region = region_with(&[b'S', b'C', b'L', 2, 8, 0, 0, 0, 0, 0, 0, 0, 0, 0, 0, 9]);
    let refused = ConfigStore::initialize(region).err();
    assert_eq!(refused, Some(StorageInitError::IncompatibleVersion { supported: 1, found: 2 }));
}

#[test]
fn another_layout_version_is_refused_whatever_the_length() {
    let region = region_with(&[b'S', b'C', b'L', 0, 3, 0, 0, 0, 1, 2, 3]);
    let refused = ConfigStore::initialize(region).err();
    assert_eq!(refused, Some(StorageInitError::IncompatibleVersion { supported: 1, found: 0 }));
}

#[test]
fn a_value_of_another_length_is_refused() {
    let region = region_with(&[b'S', b'C', b'L', 1, 4, 0, 0, 0, 0, 0, 0, 9]);
    let refused = ConfigStore::initialize(region).err();
    assert_eq!(refused, Some(StorageInitError::ForeignValue { value_len: 4 }));
}

#[test]
fn the_value_length_is_read_little_endian() {
    let region = region_with(&[b'S', b'C', b'L', 1, 8, 1, 0, 0, 0, 0, 0, 0, 0, 0, 0, 9]);
    assert_eq!(region.foreign_value_len(), Some(264));
    let region = region_with(&[b'S', b'C', b'L', 1, 0, 0, 0, 8, 0, 0, 0, 0, 0, 0, 0, 9]);
    let refused = ConfigStore::initialize(region).err();
    assert_eq!(refused, Some(StorageInitError::ForeignValue { value_len: 0x0800_0000 }));
}

#[test]
fn only_a_foreign_value_is_reported_as_one() {
    assert_eq!(empty_region().foreign_value_len(), None);
    assert_eq!(region_with(&[0u8; 8]).foreign_value_len(), None);
    let other_version = region_with(&[b'S', b'C', b'L', 7, 4, 0, 0, 0]);
    assert_eq!(other_version.foreign_value_len(), None);
    let interval = region_with(&[b'S', b'C', b'L', 1, 8, 0, 0, 0, 0, 0, 0, 0, 0, 0, 0, 1]);
    assert_eq!(interval.foreign_value_len(), None);
    let empty_value = region_with(&[b'S', b'C', b'L', 1, 0, 0, 0, 0]);
    assert_eq!(empty_value.foreign_value_len(), Some(0));
}

#[test]
fn init_failures_keep_their_details() {
    let version = ConfigStore::from_init(Err(InitError::IncompatibleVersion {
        last_supported_version: 1,
        decoded_version: 3,
    }));
    assert_eq!(
        version.err(),
        Some(StorageInitError::IncompatibleVersion { supported: 1, found: 3 })
    );
    let space = ConfigStore::from_init(Err(InitError::ValueTooLarge { value_size: 8 }));
    assert_eq!(space.err(), Some(StorageInitError::NoSpace { value_size: 8 }));
}

#[test]
fn write_outcomes_keep_their_details() {
    assert_eq!(ConfigStore::write_outcome(Ok(10)), Ok(()));
    assert_eq!(
        ConfigStore::write_outcome(Err(ValueError::ValueTooLarge { value_size: 8 })),
        Err(PersistWriteError { value_size: 8 })
    );
}
