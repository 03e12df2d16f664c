//! Outcomes of the file storage operations.
use vstd::prelude::*;

verus! {

/// Why a file storage operation failed.
#[derive(Debug, Clone, Copy, PartialEq, Eq, Structural)]
pub enum FileStorageError {
    /// File chunk already exists.
    FileChunkAlreadyExists,
    /// File chunk does not exist.
    FileChunkDoesNotExist,
    /// Failed to insert the file chunk.
    FailedToInsertFileChunk,
    /// Failed to get file chunk.
    FailedToGetFileChunk,
    /// Failed to generate proof.
    FailedToGenerateCompactProof,
    /// The requested file does not exist.
    FileDoesNotExist,
    /// File metadata fingerprint does not match the stored file fingerprint.
    FingerprintAndStoredFileMismatch,
    /// The requested file is incomplete and a proof is impossible to generate.
    IncompleteFile,
}

/// What a successful chunk write says of the file.
#[derive(Debug, Clone, Copy, PartialEq, Eq, Structural)]
pub enum FileStorageWriteStatus {
    /// The file storage was completed after this write.
    /// All chunks for the file are stored and the fingerprints match too.
    FileComplete,
    /// The file was not completed after this chunk write.
    FileIncomplete,
}

/// Whether a file is complete, from its counts and digests alone.
///
/// A file whose stored chunks are as many as expected is complete when its
/// root is the expected fingerprint and corrupt otherwise; with any other
/// count it is incomplete.
pub open spec fn spec_completion(expected: nat, stored: nat, root: Seq<u8>, fingerprint: Seq<u8>) -> Result<
    FileStorageWriteStatus,
    FileStorageError,
> {
    if stored != expected {
        Ok(FileStorageWriteStatus::FileIncomplete)
    } else if root != fingerprint {
        Err(FileStorageError::FingerprintAndStoredFileMismatch)
    } else {
        Ok(FileStorageWriteStatus::FileComplete)
    }
}

} // verus!
