//! The packed version word: slot index, payload size and checksum in one `u64`.

use vstd::prelude::*;

use crate::error::MMapSyncError;

verus! {

/// Mask of the size field once shifted down to bit 0.
pub const SIZE_MASK: u64 = 0x7f_ffff_ffff;

/// Mask of the checksum field once shifted down to bit 0.
pub const CHECKSUM_MASK: u64 = 0xff_ffff;

/// Exclusive upper bound of an encodable size, `2^39`.
pub const SIZE_LIMIT: u64 = 0x80_0000_0000;

/// The word that packs `idx` at bit 0, `size` at bits 1..=39 and the low 24
/// bits of `checksum` at bits 40..=63.
pub open spec fn pack(idx: u64, size: u64, checksum: u64) -> u64 {
    (idx & 1) | ((size & SIZE_MASK) << 1u64) | ((checksum & CHECKSUM_MASK) << 40u64)
}

/// Slot index held in a version word.
pub open spec fn idx_of(raw: u64) -> u64 {
    raw & 1
}

/// Payload size held in a version word.
pub open spec fn size_of_word(raw: u64) -> u64 {
    (raw >> 1u64) & SIZE_MASK
}

/// Checksum held in a version word.
pub open spec fn checksum_of(raw: u64) -> u64 {
    raw >> 40u64
}

/// Payload size of a version, as returned by `InstanceVersion::size`.
pub open spec fn size_of_version(v: InstanceVersion) -> usize {
    size_of_word(v.0) as usize
}

/// Whether a slot index and a size fit the packed layout.
pub open spec fn encodable(idx: usize, size: usize) -> bool {
    idx <= 1 && size < SIZE_LIMIT
}

/// The 64-bit hash that `std::hash::DefaultHasher` gives for `bytes` written
/// in one call.
pub uninterp spec fn default_hash(bytes: Seq<u8>) -> u64;

/// Relies on `std::hash::DefaultHasher`: a hasher made by `new` starts from
/// fixed keys, so `finish` after one `write` of the bytes depends on the bytes
/// alone.
#[verifier::external_body]
fn hash_bytes(data: &[u8]) -> (r: u64)
    ensures
        r == default_hash(data@),
{
    let mut hasher = std::hash::DefaultHasher::new();
    std::hash::Hasher::write(&mut hasher, data);
    std::hash::Hasher::finish(&hasher)
}

/// A published data instance: which slot holds it, how many bytes it has and a
/// checksum of those bytes. The word `0` is reserved for "nothing published".
#[derive(Clone, Copy, Debug, PartialEq, Eq, Structural)]
pub struct InstanceVersion(pub u64);

impl InstanceVersion {
    /// Packs a slot index, a size and a checksum; only the low 24 bits of the
    /// checksum are kept.
    pub fn new(idx: usize, size: usize, checksum: u64) -> (r: Result<InstanceVersion, MMapSyncError>)
        ensures
            encodable(idx, size) ==> r == Ok::<InstanceVersion, MMapSyncError>(
                InstanceVersion(pack(idx as u64, size as u64, checksum)),
            ),
            !encodable(idx, size) ==> (r matches Err(MMapSyncError::InvalidVersion { idx: i, size: s })
                && i == idx && s == size),
    {
        if idx > 1 || size as u64 >= SIZE_LIMIT {
            return Err(MMapSyncError::InvalidVersion { idx, size });
        }
        let res = ((idx as u64) & 1) | (((size as u64) & SIZE_MASK) << 1u64) | ((checksum
            & CHECKSUM_MASK) << 40u64);
        Ok(InstanceVersion(res))
    }

    /// The version of `data` stored in slot `idx`: its length as the size and
    /// the low 24 bits of its hash as the checksum. Fails with
    /// `InvalidVersion` when the slot or the length cannot be packed.
    pub fn for_payload(idx: usize, data: &[u8]) -> (r: Result<InstanceVersion, MMapSyncError>)
        ensures
            encodable(idx, data@.len() as usize) ==> r == Ok::<InstanceVersion, MMapSyncError>(
                InstanceVersion(pack(idx as u64, data@.len() as u64, default_hash(data@))),
            ),
            !encodable(idx, data@.len() as usize) ==> (r matches Err(
                MMapSyncError::InvalidVersion { idx: i, size: s },
            ) && i == idx && s == data@.len()),
    {
        let checksum = hash_bytes(data);
        InstanceVersion::new(idx, data.len(), checksum)
    }

    /// Reads a version word; the reserved word `0` means nothing was published.
    pub fn decode(raw: u64) -> (r: Result<InstanceVersion, MMapSyncError>)
        ensures
            raw != 0 ==> r == Ok::<InstanceVersion, MMapSyncError>(InstanceVersion(raw)),
            raw == 0 ==> r matches Err(MMapSyncError::UninitializedState),
    {
        if raw == 0 {
            Err(MMapSyncError::UninitializedState)
        } else {
            Ok(InstanceVersion(raw))
        }
    }

    /// Slot index, 0 or 1.
    pub fn idx(&self) -> (r: usize)
        ensures
            r == idx_of(self.0),
            r <= 1,
        opens_invariants none
        no_unwind
    {
        let raw = self.0;
        assert(raw & 1 <= 1) by (bit_vector);
        (raw & 1) as usize
    }

    /// Payload size in bytes.
    pub fn size(&self) -> (r: usize)
        ensures
            r == size_of_version(*self),
    {
        ((self.0 >> 1u64) & SIZE_MASK) as usize
    }

    /// Checksum of the payload, 24 bits wide.
    pub fn checksum(&self) -> (r: u64)
        ensures
            r == checksum_of(self.0),
            r <= CHECKSUM_MASK,
    {
        let raw = self.0;
        assert(raw >> 40u64 <= 0xff_ffffu64) by (bit_vector);
        raw >> 40u64
    }
}

/// Unpacking a packed word gives back the slot index, the size and the low 24
/// bits of the checksum.
pub proof fn lemma_unpack_pack(idx: u64, size: u64, checksum: u64)
    requires
        idx <= 1,
        size < SIZE_LIMIT,
    ensures
        idx_of(pack(idx, size, checksum)) == idx,
        size_of_word(pack(idx, size, checksum)) == size,
        checksum_of(pack(idx, size, checksum)) == checksum & CHECKSUM_MASK,
        pack(idx, size, checksum) == 0 <==> (idx == 0 && size == 0 && checksum & CHECKSUM_MASK == 0),
{
    assert(idx <= 1 && size < 0x80_0000_0000u64 ==> {
        let w = (idx & 1) | ((size & 0x7f_ffff_ffffu64) << 1u64) | ((checksum & 0xff_ffffu64) << 40u64);
        &&& w & 1 == idx
        &&& (w >> 1u64) & 0x7f_ffff_ffffu64 == size
        &&& w >> 40u64 == checksum & 0xff_ffffu64
        &&& (w == 0 <==> (idx == 0 && size == 0 && checksum & 0xff_ffffu64 == 0))
    }) by (bit_vector);
}

/// Decoding an encoded version reproduces the slot index, the size and the
/// low 24 bits of the checksum, for every encodable input except the one that
/// packs to the reserved word `0` (slot 0, size 0, checksum bits all 0).
pub proof fn lemma_decode_encode(idx: usize, size: usize, checksum: u64)
    requires
        encodable(idx, size),
        !(idx == 0 && size == 0 && checksum & CHECKSUM_MASK == 0),
    ensures
        pack(idx as u64, size as u64, checksum) != 0,
        idx_of(pack(idx as u64, size as u64, checksum)) == idx,
        size_of_word(pack(idx as u64, size as u64, checksum)) == size,
        checksum_of(pack(idx as u64, size as u64, checksum)) == checksum & CHECKSUM_MASK,
{
    lemma_unpack_pack(idx as u64, size as u64, checksum);
}

/// The version built for a payload names the slot it goes to, the payload's
/// exact length and the low 24 bits of its hash.
pub proof fn lemma_payload_version(idx: usize, data: Seq<u8>)
    requires
        encodable(idx, data.len() as usize),
        data.len() <= usize::MAX,
    ensures
        idx_of(pack(idx as u64, data.len() as u64, default_hash(data))) == idx,
        size_of_version(InstanceVersion(pack(idx as u64, data.len() as u64, default_hash(data))))
            == data.len(),
        checksum_of(pack(idx as u64, data.len() as u64, default_hash(data))) == default_hash(data)
            & CHECKSUM_MASK,
{
    lemma_unpack_pack(idx as u64, data.len() as u64, default_hash(data));
}

} // verus!
