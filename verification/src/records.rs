//! The two persisted record kinds — file metadata and access-control
//! entries — together with their mathematical views, and the error kinds
//! an operation can fail with.

use vstd::prelude::*;

verus! {

/// Mathematical view of a [`FileMetadata`] record: the same fields, with
/// text held as sequences of characters.
pub ghost struct FileMetadataView {
    pub file_id: u64,
    pub file_name: Seq<char>,
    pub file_hash: Seq<char>,
    pub owner: Seq<char>,
    pub created_at: u64,
    pub encrypted: bool,
    pub access_control: u64,
}

/// One uploaded file's provenance and pointers.
#[derive(Debug)]
pub struct FileMetadata {
    /// Unique, monotonically assigned identifier; immutable once set.
    pub file_id: u64,
    /// File name, kept as supplied.
    pub file_name: String,
    /// Opaque integrity fingerprint of the file's content.
    pub file_hash: String,
    /// Opaque identity string of the file's owner.
    pub owner: String,
    /// Ledger-clock timestamp taken when the record was created; immutable.
    pub created_at: u64,
    /// Whether the represented file is encrypted; descriptive only.
    pub encrypted: bool,
    /// Back-reference to the access entries governing this file; by
    /// convention equal to `file_id`.
    pub access_control: u64,
}

impl View for FileMetadata {
    type V = FileMetadataView;

    open spec fn view(&self) -> FileMetadataView {
        FileMetadataView {
            file_id: self.file_id,
            file_name: self.file_name@,
            file_hash: self.file_hash@,
            owner: self.owner@,
            created_at: self.created_at,
            encrypted: self.encrypted,
            access_control: self.access_control,
        }
    }
}

impl DeepView for FileMetadata {
    type V = FileMetadataView;

    open spec fn deep_view(&self) -> FileMetadataView {
        self.view()
    }
}

impl Clone for FileMetadata {
    fn clone(&self) -> (res: Self)
        ensures
            res@ == self@,
    {
        FileMetadata {
            file_id: self.file_id,
            file_name: self.file_name.clone(),
            file_hash: self.file_hash.clone(),
            owner: self.owner.clone(),
            created_at: self.created_at,
            encrypted: self.encrypted,
            access_control: self.access_control,
        }
    }
}

/// Mathematical view of an [`AccessControl`] entry.
pub ghost struct AccessControlView {
    pub file_id: u64,
    pub user: Seq<char>,
    pub permission: bool,
}

/// One permission grant or denial for a (file, user) pair.
#[derive(Debug)]
pub struct AccessControl {
    /// The file this entry governs.
    pub file_id: u64,
    /// Opaque identity string of the subject.
    pub user: String,
    /// True means access granted, false means access denied.
    pub permission: bool,
}

impl View for AccessControl {
    type V = AccessControlView;

    open spec fn view(&self) -> AccessControlView {
        AccessControlView {
            file_id: self.file_id,
            user: self.user@,
            permission: self.permission,
        }
    }
}

impl DeepView for AccessControl {
    type V = AccessControlView;

    open spec fn deep_view(&self) -> AccessControlView {
        self.view()
    }
}

impl Clone for AccessControl {
    fn clone(&self) -> (res: Self)
        ensures
            res@ == self@,
    {
        AccessControl {
            file_id: self.file_id,
            user: self.user.clone(),
            permission: self.permission,
        }
    }
}

/// Why an operation failed. Both kinds are fatal to the current call: the
/// store performs no partial writes on a failing operation.
#[derive(Clone, Copy, Debug, PartialEq, Eq, Structural)]
pub enum StorageError {
    /// The requested metadata record or access entry has never been persisted.
    NotFound,
    /// The supplied file id does not match the id of the currently stored
    /// metadata record.
    Unauthorized,
}

} // verus!
