//! Errors of the synchronizer.

use vstd::prelude::*;

verus! {

/// The standard I/O error, carried as the cause of file failures.
#[verifier::external_type_specification]
#[verifier::external_body]
pub struct ExIoError(std::io::Error);

/// A file system path, carried to say which file failed.
#[verifier::external_type_specification]
#[verifier::external_body]
pub struct ExPathBuf(std::path::PathBuf);

/// Everything that can make a read or a write of the channel fail.
#[derive(Debug)]
pub enum MMapSyncError {
    /// The state file could not be opened or mapped.
    OpenStateFile { source: std::io::Error, path: std::path::PathBuf },
    /// The metadata of the state file could not be read.
    StateFileMeta { source: std::io::Error, path: std::path::PathBuf },
    /// The state file could not be resized to the record's size.
    SetStateFileLen { source: std::io::Error, path: std::path::PathBuf, len: usize },
    /// A data slot file could not be opened, inspected or mapped for reading.
    DataFileRead { source: std::io::Error, path: std::path::PathBuf },
    /// A data slot file could not be opened, grown, mapped or flushed for writing.
    DataFileWrite { source: std::io::Error, path: std::path::PathBuf },
    /// The entity bytes could not be read.
    ReadEntityData { source: std::io::Error },
    /// The slot's mapping is shorter than the size the current version declares.
    DataVersionMiss { data_file_size: usize, current_size: usize },
    /// The slot index or the size cannot be packed into a version word.
    InvalidVersion { idx: usize, size: usize },
    /// No version has been published yet.
    UninitializedState,
}

} // verus!
