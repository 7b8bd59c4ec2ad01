use pet_app::pet::{KIND_CAT, KIND_DOG};
use pet_app::store::{Store, StoreError};

#[test]
fn a_fresh_store_lists_nothing() {
    let store = Store::open_memory().unwrap();
    assert_eq!(store.list().unwrap().len(), 0);
}

#[test]
fn insert_returns_the_record_with_its_assigned_identity() {
    let mut store = Store::open_memory().unwrap();
    let p = store.insert("Rex", 3, KIND_DOG).unwrap();
    assert_eq!(p.name, "Rex");
    assert_eq!(p.age, 3);
    assert_eq!(p.kind_id, KIND_DOG);
    let listed = store.list().unwrap();
    assert_eq!(listed, vec![p]);
}

#[test]
fn inserted_identities_are_distinct_and_listed_in_order() {
    let mut store = Store::open_memory().unwrap();
    let a = store.insert("minka", 9, KIND_CAT).unwrap();
    let b = store.insert("nala", 7, KIND_DOG).unwrap();
    assert_ne!(a.id, b.id);
    let listed = store.list().unwrap();
    assert_eq!(listed.len(), 2);
    assert!(listed[0].id < listed[1].id);
    assert_eq!(listed, vec![a, b]);
}

#[test]
fn get_by_id_finds_a_present_record() {
    let mut store = Store::open_memory().unwrap();
    let p = store.insert("minka", 9, KIND_CAT).unwrap();
    assert_eq!(store.get_by_id(p.id).unwrap(), Some(p));
}

#[test]
fn get_by_id_of_an_absent_identity_is_not_an_error() {
    let store = Store::open_memory().unwrap();
    assert_eq!(store.get_by_id(9999).unwrap(), None);
}

#[test]
fn delete_removes_exactly_the_identified_record() {
    let mut store = Store::open_memory().unwrap();
    let a = store.insert("minka", 9, KIND_CAT).unwrap();
    let b = store.insert("nala", 7, KIND_DOG).unwrap();
    store.delete_by_id(a.id).unwrap();
    assert_eq!(store.list().unwrap(), vec![b]);
    assert_eq!(store.get_by_id(a.id).unwrap(), None);
}

#[test]
fn deleting_an_absent_identity_is_a_distinct_outcome() {
    let mut store = Store::open_memory().unwrap();
    let p = store.insert("minka", 9, KIND_CAT).unwrap();
    store.delete_by_id(p.id).unwrap();
    assert_eq!(store.delete_by_id(p.id), Err(StoreError::NotFound));
    assert_eq!(store.list().unwrap().len(), 0);
}
