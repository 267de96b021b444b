use file_storage::records::{AccessControl, FileMetadata, StorageError};
use file_storage::store::DecentralizedFileStorage;

fn create(store: &mut DecentralizedFileStorage, name: &str, hash: &str, owner: &str, at: u64) -> u64 {
    store.create_file(
        String::from(name),
        String::from(hash),
        String::from(owner),
        false,
        at,
    )
}

#[test]
fn first_id_is_one() {
    let mut store = DecentralizedFileStorage::new();
    let id = create(&mut store, "a.txt", "h1", "alice", 0);
    assert_eq!(id, 1);
}

#[test]
fn ids_strictly_increase_even_for_identical_arguments() {
    let mut store = DecentralizedFileStorage::new();
    let first = create(&mut store, "a.txt", "h1", "alice", 5);
    let second = create(&mut store, "a.txt", "h1", "alice", 5);
    let third = create(&mut store, "a.txt", "h1", "alice", 5);
    assert_eq!(first, 1);
    assert_eq!(second, 2);
    assert_eq!(third, 3);
}

#[test]
fn metadata_after_create_equals_arguments() {
    let mut store = DecentralizedFileStorage::new();
    let id = store.create_file(
        String::from("report.pdf"),
        String::from("deadbeef"),
        String::from("alice"),
        true,
        1700000000,
    );
    let record = store.get_file_metadata(id).unwrap();
    assert_eq!(record.file_id, id);
    assert_eq!(record.file_name, "report.pdf");
    assert_eq!(record.file_hash, "deadbeef");
    assert_eq!(record.owner, "alice");
    assert_eq!(record.created_at, 1700000000);
    assert!(record.encrypted);
    assert_eq!(record.access_control, id);
}

#[test]
fn fixed_slot_lookup_returns_latest_record() {
    let mut store = DecentralizedFileStorage::new();
    let first = create(&mut store, "a.txt", "h1", "alice", 1);
    let second = create(&mut store, "b.txt", "h2", "bob", 2);
    // The metadata slot is fixed, not keyed by id: asking for the first id
    // yields the second record.
    let record = store.get_file_metadata(first).unwrap();
    assert_eq!(record.file_id, second);
    assert_eq!(record.file_name, "b.txt");
    assert_eq!(record.file_hash, "h2");
    assert_eq!(record.owner, "bob");
    assert_ne!(record.file_id, first);
}

#[test]
fn set_access_control_succeeds_only_on_matching_id() {
    let mut store = DecentralizedFileStorage::new();
    let id = create(&mut store, "a.txt", "h1", "alice", 0);
    assert_eq!(
        store.set_access_control(id, String::from("bob"), true),
        Ok(())
    );
    assert_eq!(
        store.set_access_control(id + 1, String::from("bob"), true),
        Err(StorageError::Unauthorized)
    );
    // The failed call left the stored entry alone.
    assert_eq!(store.check_access(id, String::from("bob")), Ok(true));
}

#[test]
fn set_access_control_before_any_create_is_not_found() {
    let mut store = DecentralizedFileStorage::new();
    assert_eq!(
        store.set_access_control(1, String::from("bob"), true),
        Err(StorageError::NotFound)
    );
}

#[test]
fn check_access_returns_stored_permission_exactly() {
    let mut store = DecentralizedFileStorage::new();
    let id = create(&mut store, "a.txt", "h1", "alice", 0);
    assert_eq!(store.set_access_control(id, String::from("bob"), true), Ok(()));
    assert_eq!(store.check_access(id, String::from("bob")), Ok(true));
    assert_eq!(store.check_access(id, String::from("carol")), Ok(false));
    assert_eq!(store.check_access(id + 1, String::from("bob")), Ok(false));

    // An explicit denial is stored and read back as such.
    assert_eq!(store.set_access_control(id, String::from("bob"), false), Ok(()));
    assert_eq!(store.check_access(id, String::from("bob")), Ok(false));
}

#[test]
fn queries_fail_with_not_found_before_any_write() {
    let store = DecentralizedFileStorage::new();
    assert!(matches!(
        store.get_file_metadata(1),
        Err(StorageError::NotFound)
    ));
    assert_eq!(
        store.check_access(1, String::from("alice")),
        Err(StorageError::NotFound)
    );
}

#[test]
fn check_access_after_create_but_before_any_grant_is_not_found() {
    let mut store = DecentralizedFileStorage::new();
    let id = create(&mut store, "a.txt", "h1", "alice", 0);
    assert_eq!(
        store.check_access(id, String::from("alice")),
        Err(StorageError::NotFound)
    );
}

#[test]
fn end_to_end_scenario() {
    let mut store = DecentralizedFileStorage::new();
    let id = store.create_file(
        String::from("a.txt"),
        String::from("h1"),
        String::from("alice"),
        false,
        42,
    );
    assert_eq!(id, 1);
    assert_eq!(store.set_access_control(1, String::from("bob"), true), Ok(()));
    assert_eq!(store.check_access(1, String::from("bob")), Ok(true));
    assert_eq!(store.check_access(1, String::from("carol")), Ok(false));
}

#[test]
fn slots_round_trip_through_the_accessors() {
    let mut store = DecentralizedFileStorage::new();
    assert_eq!(store.count_files(), 0);
    assert!(store.metadata_slot().is_none());
    assert!(store.access_slot().is_none());

    let id = create(&mut store, "a.txt", "h1", "alice", 9);
    assert_eq!(store.set_access_control(id, String::from("bob"), true), Ok(()));
    assert_eq!(store.count_files(), 1);

    let metadata: Option<FileMetadata> = store.metadata_slot().clone();
    let access: Option<AccessControl> = store.access_slot().clone();
    let copy = DecentralizedFileStorage::from_slots(store.count_files(), metadata, access);

    let record = copy.get_file_metadata(id).unwrap();
    assert_eq!(record.file_name, "a.txt");
    assert_eq!(record.created_at, 9);
    assert_eq!(copy.check_access(id, String::from("bob")), Ok(true));
    assert_eq!(copy.check_access(id, String::from("eve")), Ok(false));
}
