//! The storage engine: disk metadata, cluster compression and encryption,
//! and the snapshot graph of a disk.
pub mod compression;
pub mod disk;
pub mod encryption;
pub mod snapshot;

use vstd::prelude::*;
use crate::engine::error::{joined3, prefixed};
use crate::util::ids::{uuid_text, uuid_to_string};
use crate::util::text::{decimal, push_str, u64_decimal};

verus! {

/// Storage errors.
#[derive(Debug)]
pub enum StorageError {
    DiskNotFound(String),
    SnapshotNotFound(u128),
    CorruptImage(String),
    Encryption(String),
    Compression(String),
    InsufficientSpace { needed_bytes: u64, available_bytes: u64 },
    Io(String),
    Serialization(String),
    Internal(String),
}

/// The text a storage error is shown as.
pub open spec fn storage_error_text(e: StorageError) -> Seq<char> {
    match e {
        StorageError::DiskNotFound(m) => "Disk not found: "@ + m@,
        StorageError::SnapshotNotFound(id) => "Snapshot not found: "@ + uuid_text(id),
        StorageError::CorruptImage(m) => "Disk image is corrupt: "@ + m@,
        StorageError::Encryption(m) => "Encryption error: "@ + m@,
        StorageError::Compression(m) => "Compression error: "@ + m@,
        StorageError::InsufficientSpace { needed_bytes, available_bytes } =>
            "Insufficient disk space: need "@ + decimal(needed_bytes as nat) + " bytes, have "@
                + decimal(available_bytes as nat),
        StorageError::Io(m) => "I/O error: "@ + m@,
        StorageError::Serialization(m) => "Serialization error: "@ + m@,
        StorageError::Internal(m) => "Internal storage error: "@ + m@,
    }
}

impl StorageError {
    /// The text the error is shown as.
    pub fn to_string(&self) -> (r: String)
        ensures
            r@ == storage_error_text(*self),
    {
        match self {
            StorageError::DiskNotFound(m) => prefixed("Disk not found: ", m.as_str()),
            StorageError::SnapshotNotFound(id) => {
                let t = uuid_to_string(*id);
                prefixed("Snapshot not found: ", t.as_str())
            },
            StorageError::CorruptImage(m) => prefixed("Disk image is corrupt: ", m.as_str()),
            StorageError::Encryption(m) => prefixed("Encryption error: ", m.as_str()),
            StorageError::Compression(m) => prefixed("Compression error: ", m.as_str()),
            StorageError::InsufficientSpace { needed_bytes, available_bytes } => {
                let n = u64_decimal(*needed_bytes);
                let a = u64_decimal(*available_bytes);
                let mut s = joined3("Insufficient disk space: need ", n.as_str(), " bytes, have ");
                push_str(&mut s, a.as_str());
                s
            },
            StorageError::Io(m) => prefixed("I/O error: ", m.as_str()),
            StorageError::Serialization(m) => prefixed("Serialization error: ", m.as_str()),
            StorageError::Internal(m) => prefixed("Internal storage error: ", m.as_str()),
        }
    }
}

} // verus!
