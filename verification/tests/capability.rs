// Tests of the persistence capability through its reference in-memory store.

use std::collections::HashMap;

use servici02::persistence::Persistable;
use servici02::store::DummyPersistable;

fn seeded_store() -> DummyPersistable {
    let mut repo = DummyPersistable {
        dummy_database: HashMap::new(),
    };
    repo.init();
    repo
}

#[test]
fn seeded_keys_read_back_exactly() {
    let repo = seeded_store();
    assert_eq!(repo.load(1), "hola");
    assert_eq!(repo.load(2), "adios");
    assert_eq!(repo.load(3), "mundo");
    assert_eq!(repo.load(4), "nube");
}

#[test]
fn absent_key_reads_sentinel_repeatedly() {
    let repo = seeded_store();
    assert_eq!(repo.load(99), "NAN");
    assert_eq!(repo.load(99), "NAN");
    assert_eq!(repo.load(0), "NAN");
    assert_eq!(repo.load(u32::MAX), "NAN");
}

#[test]
fn empty_store_reads_sentinel() {
    let repo = DummyPersistable {
        dummy_database: HashMap::new(),
    };
    assert_eq!(repo.load(1), "NAN");
}

#[test]
fn save_then_load_reads_the_write() {
    let mut repo = seeded_store();
    repo.save(7, String::from("nimbus"));
    assert_eq!(repo.load(7), "nimbus");
}

#[test]
fn save_overwrites_seeded_entry() {
    let mut repo = seeded_store();
    repo.save(1, String::from("bonjour"));
    assert_eq!(repo.load(1), "bonjour");
}

#[test]
fn save_accepts_empty_text() {
    let mut repo = seeded_store();
    repo.save(5, String::new());
    assert_eq!(repo.load(5), "");
}

#[test]
fn last_write_wins_for_one_key() {
    let mut repo = seeded_store();
    repo.save(2, String::from("uno"));
    repo.save(2, String::from("dos"));
    assert_eq!(repo.load(2), "dos");
}

#[test]
fn save_leaves_other_keys_alone() {
    let mut repo = seeded_store();
    repo.save(2, String::from("dos"));
    assert_eq!(repo.load(1), "hola");
    assert_eq!(repo.load(3), "mundo");
    assert_eq!(repo.load(4), "nube");
    assert_eq!(repo.load(99), "NAN");
}
