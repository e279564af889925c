//! The two data slots as seen by one process: the mapping currently held for
//! each slot and the version returned by the previous read.

use vstd::prelude::*;

use memmap2::{Mmap, MmapMut};

use crate::error::MMapSyncError;
use crate::instance::{encodable, idx_of, pack, size_of_version, InstanceVersion};
use crate::instance::{default_hash, lemma_payload_version};

verus! {

/// A read-only map of a slot file, opaque to proofs.
#[verifier::external_type_specification]
#[verifier::external_body]
pub struct ExMmap(memmap2::Mmap);

/// A writable map of a slot file, opaque to proofs.
#[verifier::external_type_specification]
#[verifier::external_body]
pub struct ExMmapMut(memmap2::MmapMut);

/// Number of bytes a read-only map was made with.
pub uninterp spec fn mapped_len(m: Mmap) -> nat;

/// Number of bytes a writable map was made with.
pub uninterp spec fn mapped_len_mut(m: MmapMut) -> nat;

/// The bytes a writable map holds. Under the single-writer rule only the
/// holder of the writable map changes them.
pub uninterp spec fn mapped_bytes_mut(m: MmapMut) -> Seq<u8>;

/// Relies on `Mmap`'s `Deref` to a slice of the length the map was made
/// with, and on the slice's `len`.
#[verifier::external_body]
fn map_len(m: &Mmap) -> (r: usize)
    ensures
        r == mapped_len(*m),
{
    m.len()
}

/// Relies on `MmapMut`'s `Deref` to a slice of the length the map was made
/// with, and on the slice's `len`.
#[verifier::external_body]
fn map_len_mut(m: &MmapMut) -> (r: usize)
    ensures
        r == mapped_len_mut(*m),
{
    m.len()
}

/// Relies on `memmap2::MmapMut::flush`, which may fail with an I/O error.
pub assume_specification[ memmap2::MmapMut::flush ](m: &memmap2::MmapMut) -> std::io::Result<()>;

/// Relies on `Mmap`'s `Deref` to a slice of `len()` bytes: the first `n`
/// bytes of the map.
#[verifier::external_body]
fn mapped_prefix(m: &Mmap, n: usize) -> (r: &[u8])
    requires
        n <= mapped_len(*m),
    ensures
        r@.len() == n,
{
    &m[..n]
}

/// Relies on `MmapMut`'s `DerefMut` to a slice of `len()` bytes and on
/// `copy_from_slice`: copies `data` to the start of the map and leaves the
/// rest of its bytes and its length as they were.
#[verifier::external_body]
fn copy_to_map(m: &mut MmapMut, data: &[u8])
    requires
        data@.len() <= mapped_len_mut(*old(m)),
    ensures
        mapped_len_mut(*final(m)) == mapped_len_mut(*old(m)),
        mapped_bytes_mut(*final(m)).len() == mapped_len_mut(*final(m)),
        mapped_bytes_mut(*final(m)).subrange(0, data@.len() as int) == data@,
        mapped_bytes_mut(*final(m)).subrange(data@.len() as int, mapped_len_mut(*final(m)) as int)
            == mapped_bytes_mut(*old(m)).subrange(data@.len() as int, mapped_len_mut(*old(m)) as int),
{
    m[..data.len()].copy_from_slice(data)
}

/// Per-process view of the two data slots.
pub struct DataContainer {
    /// Version returned by the previous successful read.
    version: Option<InstanceVersion>,
    /// Read-only map of slot 0, if one is held.
    slot0: Option<Mmap>,
    /// Read-only map of slot 1, if one is held.
    slot1: Option<Mmap>,
}

impl DataContainer {
    /// The version returned by the previous successful read.
    pub closed spec fn last_version(&self) -> Option<InstanceVersion> {
        self.version
    }

    /// Length of the map held for slot `idx`, if one is held.
    pub closed spec fn slot_len(&self, idx: int) -> Option<nat> {
        let m = if idx == 0 { self.slot0 } else { self.slot1 };
        match m {
            Some(map) => Some(mapped_len(map)),
            None => None,
        }
    }

    /// Whether the map held for the slot of `version` covers its size.
    pub open spec fn covers(&self, version: InstanceVersion) -> bool {
        self.slot_len(idx_of(version.0) as int) matches Some(l) && l >= size_of_version(version)
    }

    /// Whether reading `version` now reports a switch.
    pub open spec fn switches_to(&self, version: InstanceVersion) -> bool {
        self.last_version() != Some(version)
    }

    /// A container that holds no map and has returned no version.
    pub fn new() -> (r: DataContainer)
        ensures
            r.last_version() is None,
            r.slot_len(0) is None,
            r.slot_len(1) is None,
    {
        DataContainer { version: None, slot0: None, slot1: None }
    }

    /// Whether the slot of `version` has to be (re)mapped before it can be
    /// read: no map is held for it, or the one held is shorter than the size.
    pub fn needs_map(&self, version: InstanceVersion) -> (r: bool)
        ensures
            r == !self.covers(version),
    {
        let size = version.size();
        let held = if version.idx() == 0 { &self.slot0 } else { &self.slot1 };
        match held {
            Some(map) => map_len(map) < size,
            None => true,
        }
    }

    /// Takes `map` as the map of the slot of `version`, replacing the one
    /// held. A map shorter than the version's size is a stale or partially
    /// written slot: it is refused with `DataVersionMiss` and nothing changes.
    pub fn attach(&mut self, version: InstanceVersion, map: Mmap) -> (r: Result<(), MMapSyncError>)
        ensures
            final(self).last_version() == old(self).last_version(),
            mapped_len(map) >= size_of_version(version) ==> {
                &&& r is Ok
                &&& final(self).slot_len(idx_of(version.0) as int) == Some(mapped_len(map))
                &&& final(self).slot_len(1 - idx_of(version.0)) == old(self).slot_len(
                    1 - idx_of(version.0),
                )
            },
            mapped_len(map) < size_of_version(version) ==> {
                &&& r matches Err(MMapSyncError::DataVersionMiss { data_file_size, current_size })
                    && data_file_size == mapped_len(map) && current_size == size_of_version(version)
                &&& final(self).slot_len(0) == old(self).slot_len(0)
                &&& final(self).slot_len(1) == old(self).slot_len(1)
            },
    {
        let size = version.size();
        let len = map_len(&map);
        if len < size {
            return Err(MMapSyncError::DataVersionMiss { data_file_size: len, current_size: size });
        }
        if version.idx() == 0 {
            self.slot0 = Some(map);
        } else {
            self.slot1 = Some(map);
        }
        Ok(())
    }

    /// The bytes of `version` in its slot, exactly `size` of them, and whether
    /// `version` differs from the one returned by the previous read. The slot
    /// must have been mapped far enough (see `needs_map` and `attach`);
    /// otherwise the read fails with `DataVersionMiss` and nothing changes.
    pub fn data(&mut self, version: InstanceVersion) -> (r: Result<(&[u8], bool), MMapSyncError>)
        ensures
            old(self).covers(version) ==> {
                &&& r matches Ok((bytes, switched)) && bytes@.len() == size_of_version(version)
                    && switched == old(self).switches_to(version)
                &&& final(self).last_version() == Some(version)
            },
            !old(self).covers(version) ==> {
                &&& r matches Err(MMapSyncError::DataVersionMiss { data_file_size, current_size })
                    && current_size == size_of_version(version)
                    && data_file_size == match old(self).slot_len(idx_of(version.0) as int) {
                        Some(l) => l,
                        None => 0,
                    }
                &&& final(self).last_version() == old(self).last_version()
            },
            final(self).slot_len(0) == old(self).slot_len(0),
            final(self).slot_len(1) == old(self).slot_len(1),
    {
        let size = version.size();
        let held = if version.idx() == 0 { &self.slot0 } else { &self.slot1 };
        let map = match held {
            Some(map) => map,
            None => {
                return Err(MMapSyncError::DataVersionMiss { data_file_size: 0, current_size: size });
            },
        };
        let len = map_len(map);
        if len < size {
            return Err(MMapSyncError::DataVersionMiss { data_file_size: len, current_size: size });
        }
        let switched = match self.version {
            Some(v) => v != version,
            None => true,
        };
        self.version = Some(version);
        let bytes = mapped_prefix(map, size);
        Ok((bytes, switched))
    }

    /// Copies `data` to the start of a writable map of a slot and flushes the
    /// map synchronously, so that the bytes are durable before the version
    /// that names them is published. Returns the number of bytes written.
    /// The rest of the map keeps its bytes.
    pub fn write(data: &[u8], map: &mut MmapMut) -> (r: Result<usize, std::io::Error>)
        requires
            data@.len() <= mapped_len_mut(*old(map)),
        ensures
            r matches Ok(n) ==> n == data@.len(),
            written_over(*old(map), *final(map), data@),
    {
        copy_to_map(map, data);
        match map.flush() {
            Ok(()) => Ok(data.len()),
            Err(e) => Err(e),
        }
    }

    /// `write`, for a map of any length: a map shorter than `data` is left
    /// untouched and gives `None`.
    pub fn write_checked(data: &[u8], map: &mut MmapMut) -> (r: Option<Result<usize, std::io::Error>>)
        ensures
            data@.len() > mapped_len_mut(*old(map)) ==> r is None && *final(map) == *old(map),
            data@.len() <= mapped_len_mut(*old(map)) ==> {
                &&& r is Some
                &&& r matches Some(Ok(n)) ==> n == data@.len()
                &&& written_over(*old(map), *final(map), data@)
            },
    {
        if map_len_mut(map) < data.len() {
            None
        } else {
            Some(DataContainer::write(data, map))
        }
    }
}

/// `after` is `before` with `data` copied over its first bytes: same length,
/// `data` at the start, the remaining bytes as they were.
pub open spec fn written_over(before: MmapMut, after: MmapMut, data: Seq<u8>) -> bool {
    let len = mapped_len_mut(after);
    &&& len == mapped_len_mut(before)
    &&& mapped_bytes_mut(after).len() == len
    &&& mapped_bytes_mut(after).subrange(0, data.len() as int) == data
    &&& mapped_bytes_mut(after).subrange(data.len() as int, len as int) == mapped_bytes_mut(
        before,
    ).subrange(data.len() as int, len as int)
}

/// Once `data` is written over a slot's map, the map starts with exactly the
/// bytes that the version built for `data` in that slot declares: `size` of
/// them, equal to `data`.
pub proof fn lemma_written_slot_holds_payload(idx: usize, data: Seq<u8>, before: MmapMut, after: MmapMut)
    requires
        encodable(idx, data.len() as usize),
        data.len() <= usize::MAX,
        written_over(before, after, data),
    ensures
        ({
            let v = InstanceVersion(pack(idx as u64, data.len() as u64, default_hash(data)));
            &&& idx_of(v.0) == idx
            &&& mapped_bytes_mut(after).subrange(0, size_of_version(v) as int) == data
        }),
{
    lemma_payload_version(idx, data);
}

/// A read of the version that the previous successful read returned reports
/// no switch; a read of any other version reports one.
pub proof fn lemma_reread_not_switched(container: DataContainer, previous: InstanceVersion, next: InstanceVersion)
    requires
        container.last_version() == Some(previous),
    ensures
        container.switches_to(next) <==> next != previous,
{
}

} // verus!
