//! The shared state record: the published version word and one reader counter
//! per data slot, all of them atomics so that cooperating processes can share
//! one mapped copy of the record.

use vstd::prelude::*;

use std::sync::atomic::{AtomicU32, AtomicU64, Ordering};

use crate::error::MMapSyncError;
use crate::instance::{idx_of, InstanceVersion};

verus! {

/// The slot that the next write goes to, given the current version word: the
/// other slot than the published one, or slot 0 when nothing was published.
pub open spec fn next_idx_spec(raw: u64) -> usize {
    if raw == 0 {
        0
    } else {
        (1 - idx_of(raw)) as usize
    }
}

/// Length in bytes of the state file: the 8-byte version word followed by
/// two 4-byte reader counters.
pub const STATE_SIZE: u64 = 16;

/// What to do with the state file found on opening it.
#[derive(Clone, Copy, Debug, PartialEq, Eq, Structural)]
pub enum StateFileStep {
    /// The file has the record's length: map it as it is.
    MapAsIs,
    /// The file was just created or has another length, and creating is
    /// allowed: set its length and zero the record before mapping.
    Init,
    /// The file has another length and creating is not allowed: fail
    /// instead of initialising (readers never create state).
    Refuse,
}

/// Decides how to treat a state file of `file_len` bytes.
pub fn state_file_step(create: bool, file_len: u64) -> (r: StateFileStep)
    ensures
        file_len == STATE_SIZE ==> r == StateFileStep::MapAsIs,
        file_len != STATE_SIZE && create ==> r == StateFileStep::Init,
        file_len != STATE_SIZE && !create ==> r == StateFileStep::Refuse,
{
    if file_len == STATE_SIZE {
        StateFileStep::MapAsIs
    } else if create {
        StateFileStep::Init
    } else {
        StateFileStep::Refuse
    }
}

/// One poll of the grace period, as seen by the writer.
#[derive(Clone, Copy, Debug, PartialEq, Eq, Structural)]
pub enum GraceStep {
    /// No reader holds the slot: the writer may overwrite it.
    Ready,
    /// Readers still hold the slot and the grace period is over: their count
    /// is cleared and the writer goes ahead.
    Reset,
    /// Readers still hold the slot and the grace period runs on: poll again later.
    Wait,
}

/// What the writer does after observing `readers` holders of its target slot,
/// with `expired` telling whether the grace period is over.
pub open spec fn grace_step_spec(readers: u32, expired: bool) -> GraceStep {
    if readers == 0 {
        GraceStep::Ready
    } else if expired {
        GraceStep::Reset
    } else {
        GraceStep::Wait
    }
}

/// A slot that no reader holds is ready at once, whether or not the grace
/// period is over: the writer never waits for it.
pub proof fn lemma_free_slot_ready(expired: bool)
    ensures
        grace_step_spec(0, expired) == GraceStep::Ready,
{
}

/// A slot still held once the grace period is over is reclaimed: the writer
/// clears its count and goes ahead instead of waiting or failing.
pub proof fn lemma_expired_grace_resets(readers: u32)
    requires
        readers > 0,
    ensures
        grace_step_spec(readers, true) == GraceStep::Reset,
{
}

/// Decides one poll of the grace period from an observed reader count.
pub fn grace_step(readers: u32, expired: bool) -> (r: GraceStep)
    ensures
        r == grace_step_spec(readers, expired),
{
    if readers == 0 {
        GraceStep::Ready
    } else if expired {
        GraceStep::Reset
    } else {
        GraceStep::Wait
    }
}

/// The slot that the next write goes to, from a version word.
pub fn next_idx_of(raw: u64) -> (r: usize)
    ensures
        r == next_idx_spec(raw),
        r <= 1,
{
    match InstanceVersion::decode(raw) {
        Ok(version) => 1 - version.idx(),
        Err(_) => 0,
    }
}

/// The record shared by the writer and the readers of one channel.
///
/// Other processes change it at any time, so nothing is known of the values
/// its atomics hold between two operations; each operation states what holds
/// of every value it may observe.
pub struct State {
    /// Current data instance version word, `0` before the first publication.
    version: AtomicU64,
    /// Number of readers currently holding each data slot.
    idx_readers: [AtomicU32; 2],
}

impl State {
    /// A record with no published version and no readers.
    pub fn new() -> (r: State) {
        State { version: AtomicU64::new(0), idx_readers: [AtomicU32::new(0), AtomicU32::new(0)] }
    }

    /// The published version, or `UninitializedState` while the word is `0`.
    pub fn version(&self) -> (r: Result<InstanceVersion, MMapSyncError>)
        ensures
            r matches Ok(v) ==> v.0 != 0,
            r is Err ==> r matches Err(MMapSyncError::UninitializedState),
    {
        InstanceVersion::decode(self.version.load(Ordering::SeqCst))
    }

    /// The slot that the next write goes to: the one not holding the
    /// published version, or slot 0 when nothing was published.
    pub fn next_idx(&self) -> (r: usize)
        ensures
            r <= 1,
    {
        next_idx_of(self.version.load(Ordering::SeqCst))
    }

    /// Number of readers currently holding slot `idx`.
    pub fn readers(&self, idx: usize) -> u32
        requires
            idx <= 1,
    {
        self.idx_readers[idx].load(Ordering::SeqCst)
    }

    /// One poll of the grace period on slot `idx`: observes its reader count
    /// and, when readers remain and `expired` holds, clears the count.
    ///
    /// Clearing is a liveness valve for readers that never released the slot
    /// (a crashed process, say). A reader that is only slow may then still be
    /// looking at the slot while the writer overwrites it: that risk is
    /// accepted so that a write always completes.
    pub fn poll_slot(&self, idx: usize, expired: bool) -> (r: GraceStep)
        requires
            idx <= 1,
        ensures
            r != GraceStep::Reset || expired,
            r != GraceStep::Wait || !expired,
    {
        let step = grace_step(self.idx_readers[idx].load(Ordering::SeqCst), expired);
        if step == GraceStep::Reset {
            self.idx_readers[idx].store(0, Ordering::SeqCst);
        }
        step
    }

    /// Publishes `version`: readers that start after this call observe it.
    pub fn switch_version(&mut self, version: InstanceVersion) {
        self.version.swap(version.0, Ordering::SeqCst);
    }

    /// Registers one more reader of the slot of `version`.
    pub fn rlock(&self, version: InstanceVersion) {
        self.idx_readers[version.idx()].fetch_add(1, Ordering::SeqCst);
    }

    /// Releases one reader of the slot of `version`.
    pub(crate) fn runlock(&self, version: InstanceVersion)
        opens_invariants none
        no_unwind
    {
        release_one(&self.idx_readers[version.idx()]);
    }
}

impl Default for State {
    fn default() -> (r: State) {
        State::new()
    }
}

/// Relies on `AtomicU32::fetch_sub`, which wraps on overflow and never
/// panics, so that a reader can be released from a destructor.
#[verifier::external_body]
fn release_one(counter: &AtomicU32)
    opens_invariants none
    no_unwind
{
    counter.fetch_sub(1, Ordering::SeqCst);
}

} // verus!
