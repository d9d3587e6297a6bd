use payroll_store::in_memory_db as MT;
use payroll_store::in_memory_db::InMemoryDB;

#[test]
fn create_entry() {
    let entry = "bob";
    let mut db = InMemoryDB::new();
    let id = db.create(entry);

    let e = db.read(id);

    assert_eq!(e.unwrap(), entry);
}

#[test]
fn create_two_entry() {
    let entry1 = "bob";
    let entry2 = "alice";
    let mut db = InMemoryDB::new();
    let id1 = db.create(entry1);
    let id2 = db.create(entry2);
    let e1 = db.read(id1);
    let e2 = db.read(id2);

    assert_eq!(e1.unwrap(), entry1);
    assert_eq!(e2.unwrap(), entry2);
}

#[test]
fn update_entry() {
    let initial_entry = "bob";
    let updated_entry = "alice";
    let mut db = InMemoryDB::new();
    let id = db.create(initial_entry);

    db.update(id, updated_entry);

    let e = db.read(id);

    assert_eq!(updated_entry, e.unwrap());
}

#[test]
fn delete_entry() {
    let initial_entry = "bob";
    let mut db = InMemoryDB::new();
    let id = db.create(initial_entry);

    db.delete(id);

    let e = db.read(id);

    assert_eq!(None, e);
}

#[test]
#[allow(non_snake_case)]
fn create_entry_MT() {
    let entry = "bob";
    let mut db = MT::InMemoryDB::new();
    let id = db.create(entry);

    let e = db.read(id);

    assert_eq!(e.unwrap(), entry);
}

#[test]
#[allow(non_snake_case)]
fn create_two_entry_MT() {
    let entry1 = "bob";
    let entry2 = "alice";
    let mut db = MT::InMemoryDB::new();
    let id1 = db.create(entry1);
    let id2 = db.create(entry2);
    let e1 = db.read(id1);
    let e2 = db.read(id2);

    assert_eq!(e1.unwrap(), entry1);
    assert_eq!(e2.unwrap(), entry2);
}

#[test]
#[allow(non_snake_case)]
fn update_entry_MT() {
    let initial_entry = "bob";
    let updated_entry = "alice";
    let mut db = MT::InMemoryDB::new();
    let id = db.create(initial_entry);

    db.update(id, updated_entry);

    let e = db.read(id);

    assert_eq!(updated_entry, e.unwrap());
}

#[test]
#[allow(non_snake_case)]
fn delete_entry_MT() {
    let initial_entry = "bob";
    let mut db = MT::InMemoryDB::new();
    let id = db.create(initial_entry);

    db.delete(id);

    let e = db.read(id);

    assert_eq!(None, e);
}
