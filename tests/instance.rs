use std::hash::{DefaultHasher, Hasher};

use mmap_sync::error::MMapSyncError;
use mmap_sync::instance::InstanceVersion;

#[test]
fn encode_then_decode_keeps_fields() {
    let cases: [(usize, usize, u64); 5] = [
        (0, 1, 0),
        (1, 0, 0),
        (1, 4, 0xdead_beef),
        (0, (1 << 39) - 1, u64::MAX),
        (1, 12345, 0xff_ffff),
    ];
    for (idx, size, checksum) in cases {
        let encoded = InstanceVersion::new(idx, size, checksum).unwrap();
        let decoded = InstanceVersion::decode(encoded.0).unwrap();
        assert_eq!(decoded.idx(), idx);
        assert_eq!(decoded.size(), size);
        assert_eq!(decoded.checksum(), checksum & 0xff_ffff);
    }
}

#[test]
fn encode_packs_fields_lsb_first() {
    let v = InstanceVersion::new(1, 4, 0xabcd_ef12).unwrap();
    assert_eq!(v.0, 1 | (4 << 1) | (0xcd_ef12 << 40));
    let v = InstanceVersion::new(0, 7, 0).unwrap();
    assert_eq!(v.0, 14);
}

#[test]
fn encode_rejects_slot_two() {
    match InstanceVersion::new(2, 8, 1) {
        Err(MMapSyncError::InvalidVersion { idx, size }) => {
            assert_eq!(idx, 2);
            assert_eq!(size, 8);
        }
        other => panic!("unexpected {:?}", other),
    }
}

#[test]
fn encode_rejects_size_at_limit() {
    let limit: usize = 1 << 39;
    assert!(matches!(
        InstanceVersion::new(0, limit, 1),
        Err(MMapSyncError::InvalidVersion { idx: 0, size }) if size == limit
    ));
    assert!(InstanceVersion::new(0, limit - 1, 1).is_ok());
}

#[test]
fn decode_zero_is_uninitialized() {
    assert!(matches!(InstanceVersion::decode(0), Err(MMapSyncError::UninitializedState)));
    assert_eq!(InstanceVersion::decode(5).unwrap(), InstanceVersion(5));
}

#[test]
fn payload_version_uses_length_and_hash() {
    let data = 7i32.to_ne_bytes();
    let mut hasher = DefaultHasher::new();
    hasher.write(&data);
    let hash = hasher.finish();
    let v = InstanceVersion::for_payload(1, &data).unwrap();
    assert_eq!(v.idx(), 1);
    assert_eq!(v.size(), 4);
    assert_eq!(v.checksum(), hash & 0xff_ffff);
    let other = InstanceVersion::for_payload(1, &8i32.to_ne_bytes()).unwrap();
    assert_eq!(other.size(), 4);
    assert!(matches!(
        InstanceVersion::for_payload(2, &data),
        Err(MMapSyncError::InvalidVersion { idx: 2, size: 4 })
    ));
}
