use evm_call::{StatusCode, StorageStatus, StorageTrie, System, U256};
use fvm_ipld_blockstore::MemoryBlockstore;
use std::rc::Rc;

fn fresh(readonly: bool) -> System {
    System::new(StorageTrie::new(&Rc::new(MemoryBlockstore::default())), readonly)
}

fn w(v: u128) -> U256 {
    U256 { hi: 0, lo: v }
}

#[test]
fn add_repeat_delete() {
    let mut sys = fresh(false);
    let k = w(1);
    let v = U256 { hi: 5, lo: 9 };
    assert!(matches!(sys.set_storage(k, Some(v)), Ok(StorageStatus::Added)));
    assert!(matches!(sys.set_storage(k, Some(v)), Ok(StorageStatus::Unchanged)));
    assert_eq!(sys.get_storage(k), Ok(Some(v)));
    assert!(matches!(sys.set_storage(k, None), Ok(StorageStatus::Deleted)));
    assert_eq!(sys.get_storage(k), Ok(None));
}

#[test]
fn modify_existing_value() {
    let mut sys = fresh(false);
    assert!(matches!(sys.set_storage(w(2), Some(w(1))), Ok(StorageStatus::Added)));
    assert!(matches!(sys.set_storage(w(2), Some(w(3))), Ok(StorageStatus::Modified)));
    assert_eq!(sys.get_storage(w(2)), Ok(Some(w(3))));
    assert_eq!(sys.get_storage(w(3)), Ok(None));
}

#[test]
fn delete_absent_key() {
    let mut sys = fresh(true);
    assert!(matches!(sys.set_storage(w(4), None), Ok(StorageStatus::Deleted)));
    assert!(sys.readonly);
}

#[test]
fn flush_gives_stable_root() {
    let mut sys = fresh(false);
    sys.set_storage(w(1), Some(w(2))).unwrap();
    let a = sys.flush_state().unwrap();
    let b = sys.flush_state().unwrap();
    assert!(!a.to_bytes().is_empty());
    assert_eq!(a, b);
    sys.set_storage(w(1), Some(w(3))).unwrap();
    let c = sys.flush_state().unwrap();
    assert_ne!(a, c);
    assert_eq!(sys.get_storage(w(1)), Ok(Some(w(3))));
    let _ = StatusCode::InternalError;
}

#[test]
fn load_flushed_storage() {
    let store = Rc::new(MemoryBlockstore::default());
    let mut sys = System::new(StorageTrie::new(&store), false);
    sys.set_storage(w(7), Some(w(70))).unwrap();
    sys.set_storage(w(8), Some(w(80))).unwrap();
    let root = sys.flush_state().unwrap();
    let reopened = System::new(StorageTrie::load(&root, &store).unwrap(), true);
    assert_eq!(reopened.get_storage(w(7)), Ok(Some(w(70))));
    assert_eq!(reopened.get_storage(w(8)), Ok(Some(w(80))));
    assert_eq!(reopened.get_storage(w(9)), Ok(None));
    let other = Rc::new(MemoryBlockstore::default());
    assert!(matches!(StorageTrie::load(&root, &other), Err(StatusCode::InternalError)));
}
