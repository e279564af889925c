use memmap2::{Mmap, MmapMut};

use mmap_sync::data::DataContainer;
use mmap_sync::error::MMapSyncError;
use mmap_sync::guard::ReadGuard;
use mmap_sync::instance::InstanceVersion;
use mmap_sync::state::{GraceStep, State};

/// Writes `value` the way a writer does: to the free slot, flushed, then
/// published. Returns the slot and a read-only map of its bytes.
fn publish(state: &mut State, value: i32) -> (usize, Mmap) {
    let bytes = value.to_ne_bytes();
    let idx = state.next_idx();
    assert_eq!(state.poll_slot(idx, false), GraceStep::Ready);
    let mut map = MmapMut::map_anon(bytes.len()).unwrap();
    assert_eq!(DataContainer::write(&bytes, &mut map).unwrap(), bytes.len());
    let version = InstanceVersion::for_payload(idx, &bytes).unwrap();
    state.switch_version(version);
    (idx, map.make_read_only().unwrap())
}

/// Reads the published value the way a reader does.
fn read(state: &State, data: &mut DataContainer, maps: &mut [Option<Mmap>; 2]) -> (i32, bool) {
    let version = state.version().unwrap();
    let _guard = ReadGuard::new(state, version);
    assert_eq!(state.readers(version.idx()), 1);
    if data.needs_map(version) {
        data.attach(version, maps[version.idx()].take().unwrap()).unwrap();
    }
    let (bytes, switched) = data.data(version).unwrap();
    (i32::from_ne_bytes(bytes.try_into().unwrap()), switched)
}

#[test]
fn seven_then_eight() {
    let mut state = State::new();
    let mut data = DataContainer::new();
    let mut maps: [Option<Mmap>; 2] = [None, None];

    let (idx, map) = publish(&mut state, 7);
    assert_eq!(idx, 0);
    maps[idx] = Some(map);
    assert_eq!(read(&state, &mut data, &mut maps), (7, true));

    let (idx, map) = publish(&mut state, 8);
    assert_eq!(idx, 1);
    maps[idx] = Some(map);
    assert_eq!(read(&state, &mut data, &mut maps), (8, true));
    assert_eq!(read(&state, &mut data, &mut maps), (8, false));
    assert_eq!(state.readers(0), 0);
    assert_eq!(state.readers(1), 0);
}

#[test]
fn read_returns_written_bytes() {
    let payload: [u8; 6] = [1, 2, 3, 250, 0, 9];
    let mut map = MmapMut::map_anon(16).unwrap();
    assert_eq!(DataContainer::write(&payload, &mut map).unwrap(), 6);
    assert_eq!(&map[..6], &payload);
    let version = InstanceVersion::for_payload(1, &payload).unwrap();
    let mut data = DataContainer::new();
    assert!(data.needs_map(version));
    data.attach(version, map.make_read_only().unwrap()).unwrap();
    assert!(!data.needs_map(version));
    let (bytes, switched) = data.data(version).unwrap();
    assert_eq!(bytes, &payload);
    assert!(switched);
}

#[test]
fn reread_is_not_switched() {
    let mut map = MmapMut::map_anon(4).unwrap();
    DataContainer::write(&[5, 6, 7, 8], &mut map).unwrap();
    let version = InstanceVersion::new(0, 4, 77).unwrap();
    let mut data = DataContainer::new();
    data.attach(version, map.make_read_only().unwrap()).unwrap();
    assert!(data.data(version).unwrap().1);
    assert!(!data.data(version).unwrap().1);
    let other = InstanceVersion::new(0, 3, 78).unwrap();
    assert!(!data.needs_map(other));
    let (bytes, switched) = data.data(other).unwrap();
    assert_eq!(bytes, &[5, 6, 7]);
    assert!(switched);
}

#[test]
fn undersized_slot_is_version_miss() {
    let map = MmapMut::map_anon(2).unwrap().make_read_only().unwrap();
    let version = InstanceVersion::new(0, 4, 1).unwrap();
    let mut data = DataContainer::new();
    assert!(matches!(
        data.attach(version, map),
        Err(MMapSyncError::DataVersionMiss { data_file_size: 2, current_size: 4 })
    ));
    assert!(data.needs_map(version));
    assert!(matches!(
        data.data(version),
        Err(MMapSyncError::DataVersionMiss { current_size: 4, .. })
    ));
}

#[test]
fn larger_version_needs_remap() {
    let map = MmapMut::map_anon(4).unwrap().make_read_only().unwrap();
    let small = InstanceVersion::new(1, 4, 1).unwrap();
    let large = InstanceVersion::new(1, 8, 1).unwrap();
    let mut data = DataContainer::new();
    data.attach(small, map).unwrap();
    assert!(!data.needs_map(small));
    assert!(data.needs_map(large));
    assert!(matches!(
        data.data(large),
        Err(MMapSyncError::DataVersionMiss { data_file_size: 4, current_size: 8 })
    ));
    let bigger = MmapMut::map_anon(8).unwrap().make_read_only().unwrap();
    data.attach(large, bigger).unwrap();
    assert_eq!(data.data(large).unwrap().0.len(), 8);
}

#[test]
fn write_keeps_bytes_past_payload() {
    let mut map = MmapMut::map_anon(6).unwrap();
    map.copy_from_slice(&[9, 9, 9, 9, 9, 9]);
    assert_eq!(DataContainer::write(&[1, 2, 3], &mut map).unwrap(), 3);
    assert_eq!(&map[..], &[1, 2, 3, 9, 9, 9]);
    assert_eq!(map.len(), 6);
}

#[test]
fn checked_write_refuses_short_map() {
    let mut map = MmapMut::map_anon(2).unwrap();
    assert!(DataContainer::write_checked(&[1, 2, 3], &mut map).is_none());
    assert_eq!(&map[..], &[0, 0]);
    let mut map = MmapMut::map_anon(3).unwrap();
    assert_eq!(DataContainer::write_checked(&[4, 5, 6], &mut map).unwrap().unwrap(), 3);
    assert_eq!(&map[..], &[4, 5, 6]);
}
