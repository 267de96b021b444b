//! The store itself: three fixed persistence slots (identifier counter,
//! metadata record, access entry) and the four operations over them.

use vstd::prelude::*;

use crate::records::{AccessControl, AccessControlView, FileMetadata, FileMetadataView, StorageError};

verus! {

/// Mathematical view of the whole persisted state: one counter slot and one
/// fixed slot per record kind, each holding at most one live value.
#[verifier::ext_equal]
pub ghost struct StoreView {
    /// The identifier counter: the number of records created so far, and the
    /// id handed out by the most recent creation.
    pub count_files: u64,
    /// The metadata slot: the most recently created record, if any.
    pub file_metadata: Option<FileMetadataView>,
    /// The access-control slot: the most recently stored entry, if any.
    pub access_control: Option<AccessControlView>,
}

impl StoreView {
    /// State of the persistence surface before any operation has run.
    pub open spec fn is_initial(self) -> bool {
        &&& self.count_files == 0
        &&& self.file_metadata is None
        &&& self.access_control is None
    }

    /// Well-formedness of a state the store's own operations can reach: a
    /// record exists exactly once an id has been allocated, the stored record
    /// carries the most recently allocated id and points at its own access
    /// entries, and any access entry governs an id that has been handed out.
    pub open spec fn inv(self) -> bool {
        &&& self.file_metadata is None ==> self.count_files == 0
        &&& self.file_metadata matches Some(m) ==> {
            &&& m.file_id == self.count_files
            &&& 1 <= m.file_id
            &&& m.access_control == m.file_id
        }
        &&& self.access_control matches Some(a) ==> 1 <= a.file_id <= self.count_files
    }
}

/// What one creation call asks for: the caller-supplied record fields plus
/// the ledger-clock value stamped at call time.
pub ghost struct CreateRequest {
    pub file_name: Seq<char>,
    pub file_hash: Seq<char>,
    pub owner: Seq<char>,
    pub created_at: u64,
    pub encrypted: bool,
}

/// Bundles the arguments of one creation call into a [`CreateRequest`].
pub open spec fn create_request(
    file_name: Seq<char>,
    file_hash: Seq<char>,
    owner: Seq<char>,
    created_at: u64,
    encrypted: bool,
) -> CreateRequest {
    CreateRequest { file_name, file_hash, owner, created_at, encrypted }
}

/// The metadata record that a creation call with request `req` and allocated
/// id `file_id` persists: the request's fields verbatim, with the
/// access-control back-reference equal to the id.
pub open spec fn created_record(req: CreateRequest, file_id: u64) -> FileMetadataView {
    FileMetadataView {
        file_id,
        file_name: req.file_name,
        file_hash: req.file_hash,
        owner: req.owner,
        created_at: req.created_at,
        encrypted: req.encrypted,
        access_control: file_id,
    }
}

/// The access entry persisted by a successful authorization call.
pub open spec fn access_entry(file_id: u64, user: Seq<char>, permission: bool) -> AccessControlView {
    AccessControlView { file_id, user, permission }
}

/// How one creation call changes the state: the counter advances by exactly
/// one, the advanced counter is the returned id, the metadata slot is
/// overwritten with the new record, and the access slot is untouched.
pub open spec fn create_transition(
    pre: StoreView,
    post: StoreView,
    req: CreateRequest,
    file_id: u64,
) -> bool {
    &&& file_id == pre.count_files + 1
    &&& post.count_files == file_id
    &&& post.file_metadata == Some(created_record(req, file_id))
    &&& post.access_control == pre.access_control
}

/// Whether an authorization call for `file_id` succeeds in state `s`, and
/// with which error it fails otherwise: it succeeds exactly when the stored
/// metadata record carries `file_id`, is unauthorized on a mismatch, and
/// finds nothing when no record was ever created.
pub open spec fn grant_outcome(s: StoreView, file_id: u64) -> Result<(), StorageError> {
    match s.file_metadata {
        Some(m) => if m.file_id == file_id {
            Ok(())
        } else {
            Err(StorageError::Unauthorized)
        },
        None => Err(StorageError::NotFound),
    }
}

/// How a successful authorization call changes the state: the counter and
/// the metadata slot are untouched and the access slot is overwritten with
/// the new entry.
pub open spec fn grant_transition(
    pre: StoreView,
    post: StoreView,
    file_id: u64,
    user: Seq<char>,
    permission: bool,
) -> bool {
    &&& grant_outcome(pre, file_id) is Ok
    &&& post.count_files == pre.count_files
    &&& post.file_metadata == pre.file_metadata
    &&& post.access_control == Some(access_entry(file_id, user, permission))
}

/// What a metadata lookup returns in state `s`. The slot is fixed rather
/// than keyed, so the lookup yields whatever record was most recently
/// created, whichever id the caller asked for; it fails only when no record
/// has ever been created.
pub open spec fn metadata_query(s: StoreView) -> Result<FileMetadataView, StorageError> {
    match s.file_metadata {
        Some(m) => Ok(m),
        None => Err(StorageError::NotFound),
    }
}

/// The stored entry's verdict for an access check: its permission when both
/// the file id and the user match the entry exactly, and a denial otherwise.
pub open spec fn access_decision(entry: AccessControlView, file_id: u64, user: Seq<char>) -> bool {
    entry.file_id == file_id && entry.user == user && entry.permission
}

/// What an access check returns in state `s`: the stored entry's verdict,
/// or a failure when no entry has ever been persisted.
pub open spec fn access_query(s: StoreView, file_id: u64, user: Seq<char>) -> Result<
    bool,
    StorageError,
> {
    match s.access_control {
        Some(entry) => Ok(access_decision(entry, file_id, user)),
        None => Err(StorageError::NotFound),
    }
}

/// The decentralized file storage: the library's facade over the three
/// persistence slots. The host reads the slots into a value of this type,
/// runs an operation, and persists the slots again.
pub struct DecentralizedFileStorage {
    count_files: u64,
    file_metadata: Option<FileMetadata>,
    access_control: Option<AccessControl>,
}

impl View for DecentralizedFileStorage {
    type V = StoreView;

    closed spec fn view(&self) -> StoreView {
        StoreView {
            count_files: self.count_files,
            file_metadata: self.file_metadata.deep_view(),
            access_control: self.access_control.deep_view(),
        }
    }
}

impl DecentralizedFileStorage {
    /// A store whose persistence surface holds no value yet.
    pub fn new() -> (s: Self)
        ensures
            s@.is_initial(),
            s@.inv(),
    {
        DecentralizedFileStorage {
            count_files: 0,
            file_metadata: None,
            access_control: None,
        }
    }

    /// A store over slot values read back from the persistence surface.
    pub fn from_slots(
        count_files: u64,
        file_metadata: Option<FileMetadata>,
        access_control: Option<AccessControl>,
    ) -> (s: Self)
        ensures
            s@.count_files == count_files,
            s@.file_metadata == file_metadata.deep_view(),
            s@.access_control == access_control.deep_view(),
    {
        DecentralizedFileStorage { count_files, file_metadata, access_control }
    }

    /// Creates and stores a file-metadata record: allocates the next id,
    /// builds the record from the arguments and the supplied ledger-clock
    /// value, overwrites the metadata slot, persists the advanced counter,
    /// and returns the id. Every call allocates a fresh id, whatever the
    /// arguments; no duplicate detection by name or hash is performed.
    pub fn create_file(
        &mut self,
        file_name: String,
        file_hash: String,
        owner: String,
        encrypted: bool,
        created_at: u64,
    ) -> (file_id: u64)
        requires
            old(self)@.count_files < u64::MAX,
        ensures
            file_id == old(self)@.count_files + 1,
            create_transition(
                old(self)@,
                final(self)@,
                create_request(file_name@, file_hash@, owner@, created_at, encrypted),
                file_id,
            ),
            old(self)@.inv() ==> final(self)@.inv(),
    {
        let file_id: u64 = self.count_files + 1;
        let new_file = FileMetadata {
            file_id,
            file_name,
            file_hash,
            owner,
            created_at,
            encrypted,
            access_control: file_id,
        };
        self.file_metadata = Some(new_file);
        self.count_files = file_id;
        file_id
    }

    /// Stores an access-control entry for `(file_id, user)`, provided the
    /// supplied `file_id` equals the id of the currently stored metadata
    /// record — the only ownership check performed; it compares identifiers,
    /// not caller identity. On a mismatch nothing is written and the call is
    /// unauthorized; before any record exists nothing is written and nothing
    /// is found.
    pub fn set_access_control(
        &mut self,
        file_id: u64,
        user: String,
        permission: bool,
    ) -> (result: Result<(), StorageError>)
        ensures
            result == grant_outcome(old(self)@, file_id),
            result is Ok ==> grant_transition(
                old(self)@,
                final(self)@,
                file_id,
                user@,
                permission,
            ),
            result is Err ==> final(self)@ == old(self)@,
            old(self)@.inv() ==> final(self)@.inv(),
    {
        let stored_id: Option<u64> = match &self.file_metadata {
            Some(metadata) => Some(metadata.file_id),
            None => None,
        };
        match stored_id {
            Some(id) => {
                if id == file_id {
                    self.access_control = Some(AccessControl { file_id, user, permission });
                    Ok(())
                } else {
                    Err(StorageError::Unauthorized)
                }
            },
            None => Err(StorageError::NotFound),
        }
    }

    /// Retrieves the persisted metadata record. The slot is fixed rather
    /// than keyed, so the call returns whatever record was most recently
    /// created, even when its id differs from the requested `file_id`; it
    /// fails only when no record has ever been created.
    #[allow(unused_variables)]
    pub fn get_file_metadata(&self, file_id: u64) -> (result: Result<FileMetadata, StorageError>)
        ensures
            match result {
                Ok(record) => metadata_query(self@) == Ok::<FileMetadataView, StorageError>(
                    record@,
                ),
                Err(e) => metadata_query(self@) == Err::<FileMetadataView, StorageError>(e),
            },
    {
        match &self.file_metadata {
            Some(record) => Ok(record.clone()),
            None => Err(StorageError::NotFound),
        }
    }

    /// Checks whether `user` has access to `file_id`: returns the stored
    /// entry's permission when both its file id and its user match the
    /// arguments exactly, a denial otherwise, and fails only when no access
    /// entry has ever been persisted.
    pub fn check_access(&self, file_id: u64, user: String) -> (result: Result<bool, StorageError>)
        ensures
            result == access_query(self@, file_id, user@),
    {
        match &self.access_control {
            Some(entry) => {
                if entry.file_id == file_id && entry.user == user {
                    Ok(entry.permission)
                } else {
                    Ok(false)
                }
            },
            None => Err(StorageError::NotFound),
        }
    }

    /// The identifier counter as currently persisted.
    pub fn count_files(&self) -> (n: u64)
        ensures
            n == self@.count_files,
    {
        self.count_files
    }

    /// The metadata slot as currently persisted.
    pub fn metadata_slot(&self) -> (slot: &Option<FileMetadata>)
        ensures
            slot.deep_view() == self@.file_metadata,
    {
        &self.file_metadata
    }

    /// The access-control slot as currently persisted.
    pub fn access_slot(&self) -> (slot: &Option<AccessControl>)
        ensures
            slot.deep_view() == self@.access_control,
    {
        &self.access_control
    }
}

} // verus!
