use payroll_store::db::DBError;
use payroll_store::db::InMemoryDB;
use payroll_store::db::InMemoryDBCrud;
use payroll_store::entities::Employee;
use payroll_store::payroll_db::PayrollDB;
use payroll_store::shared::SharedStore;

#[test]
fn round_trip_single_payload() {
    let mut db = payroll_store::in_memory_db::InMemoryDB::new();
    let id = db.create("a payload the store never looks into");
    assert_eq!(
        db.read(id).unwrap(),
        "a payload the store never looks into"
    );
}

#[test]
fn identifiers_distinct_and_increasing() {
    let mut db = payroll_store::in_memory_db::InMemoryDB::new();
    let a = db.create("one");
    let b = db.create("two");
    let c = db.create("three");
    assert_eq!(a, 1);
    assert_eq!(b, 2);
    assert_eq!(c, 3);
    assert!(a < b && b < c);
}

#[test]
fn deleted_identifier_never_reused() {
    let mut db = InMemoryDB::new();
    let id = db.create("bob").unwrap();
    db.delete(id);
    assert_eq!(db.read(id).unwrap_err(), DBError::Read);
    let next = db.create("carol").unwrap();
    assert_ne!(next, id);
    assert!(next > id);
}

#[test]
fn update_and_delete_of_missing_identifier_are_observable_noops() {
    let mut db = InMemoryDB::new();
    let id = db.create("bob").unwrap();
    assert!(!db.update(id + 1, "alice"));
    assert!(!db.delete(id + 1));
    assert_eq!(db.read(id).unwrap(), "bob");
    assert!(db.update(id, "alice"));
    assert_eq!(db.read(id).unwrap(), "alice");
    assert!(db.delete(id));
    assert_eq!(db.read(id).unwrap_err(), DBError::Read);
}

#[test]
fn scenario_bob_then_alice() {
    let mut db = InMemoryDB::new();
    assert_eq!(db.create("bob").unwrap(), 1);
    assert_eq!(db.create("alice").unwrap(), 2);
    assert_eq!(db.read(1).unwrap(), "bob");
    assert_eq!(db.read(2).unwrap(), "alice");
    db.update(1, "alice");
    assert_eq!(db.read(1).unwrap(), "alice");
    db.delete(1);
    assert_eq!(db.read(1).unwrap_err(), DBError::Read);
}

#[test]
fn shared_store_callers_see_same_entries() {
    let store = SharedStore::new();
    let writer = &store;
    let reader = &store;
    let id = writer.create("bob").unwrap();
    assert_eq!(reader.read(id).unwrap(), "bob");
    assert!(writer.update(id, "alice"));
    assert_eq!(reader.read(id).unwrap(), "alice");
    assert!(writer.delete(id));
    assert_eq!(reader.read(id).unwrap_err(), DBError::Read);
}

#[test]
fn shared_store_assigns_positive_identifiers() {
    let store = SharedStore::new();
    let first = store.create("bob").unwrap();
    let second = store.create("alice").unwrap();
    assert!(first >= 1);
    assert!(second > first);
    assert_eq!(store.read(first).unwrap(), "bob");
    assert_eq!(store.read(second).unwrap(), "alice");
}

#[test]
fn employee_keeps_its_name() {
    let e = Employee::new("bob");
    assert_eq!(e.name, "bob");
}

#[test]
fn payroll_files_employees_under_chosen_identifiers() {
    let mut payroll = PayrollDB::new();
    payroll.add_employee(7, &Employee::new("bob"));
    assert_eq!(payroll.read(7).unwrap().name, "bob");
    assert!(payroll.read(8).is_none());
    payroll.add_employee(7, &Employee::new("alice"));
    assert_eq!(payroll.read(7).unwrap().name, "alice");
}
