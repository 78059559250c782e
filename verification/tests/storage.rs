//! Tests that run the boundary operations against the real storage
//! engine, each on its own temporary database (the engine removes the
//! files when the last reference is dropped).

use sled_nif::bytes::{decode, encode, Bin};
use sled_nif::config::{config_new, ConfigOption, OptionValue};
use sled_nif::errors::BoundaryError;
use sled_nif::facade::{config_open, open, DbHandle};

fn temp_db(path: &str) -> DbHandle {
    let opts = vec![
        ConfigOption {
            key: "path".to_string(),
            value: OptionValue::Text(path.to_string()),
        },
        ConfigOption {
            key: "temporary".to_string(),
            value: OptionValue::Bool(true),
        },
    ];
    let config = config_new(&opts).expect("a valid option set");
    config_open(&config).expect("the engine opens a temporary database")
}

fn bin(bytes: &[u8]) -> Bin {
    encode(bytes)
}

#[test]
fn insert_is_an_upsert() {
    let db = temp_db("/tmp/sled_nif_upsert");
    let tree = db.tree_open(&"t".to_string()).expect("tree opens");
    let first = tree.insert(&bin(b"k"), &bin(b"v1")).expect("insert succeeds");
    assert_eq!(first, None);
    let second = tree.insert(&bin(b"k"), &bin(b"v2")).expect("insert succeeds");
    assert_eq!(second, Some(bin(b"v1")));
    let now = tree.get(&bin(b"k")).expect("get succeeds");
    assert_eq!(now, Some(bin(b"v2")));
}

#[test]
fn absence_is_not_an_error() {
    let db = temp_db("/tmp/sled_nif_absence");
    let tree = db.tree_open(&"t".to_string()).expect("tree opens");
    assert_eq!(tree.get(&bin(b"missing-key")), Ok(None));
    assert_eq!(tree.remove(&bin(b"missing-key")), Ok(None));
}

#[test]
fn tree_open_is_idempotent() {
    let db = temp_db("/tmp/sled_nif_idempotent");
    let one = db.tree_open(&"t".to_string()).expect("tree opens");
    let two = db.tree_open(&"t".to_string()).expect("tree opens again");
    one.insert(&bin(b"shared"), &bin(b"value"))
        .expect("insert succeeds");
    assert_eq!(two.get(&bin(b"shared")), Ok(Some(bin(b"value"))));
    assert_eq!(one.name, two.name);
}

#[test]
fn dropped_tree_reopens_empty() {
    let db = temp_db("/tmp/sled_nif_drop");
    let tree = db.tree_open(&"t".to_string()).expect("tree opens");
    tree.insert(&bin(b"k"), &bin(b"v")).expect("insert succeeds");
    drop(tree);
    assert_eq!(db.tree_drop(&"t".to_string()), Ok(true));
    let fresh = db.tree_open(&"t".to_string()).expect("tree reopens");
    assert_eq!(fresh.get(&bin(b"k")), Ok(None));
    drop(fresh);
    assert_eq!(db.tree_drop(&"t".to_string()), Ok(true));
    assert_eq!(db.tree_drop(&"t".to_string()), Ok(false));
}

#[test]
fn dropping_the_default_tree_is_a_typed_error() {
    let db = temp_db("/tmp/sled_nif_default_drop");
    match db.tree_drop(&"__sled__default".to_string()) {
        Err(BoundaryError::Unsupported(_)) => {}
        other => panic!("expected an unsupported-operation error, got {:?}", other),
    }
}

#[test]
fn checksum_tracks_mutations() {
    let db = temp_db("/tmp/sled_nif_checksum");
    let tree = db.tree_open(&"t".to_string()).expect("tree opens");
    tree.insert(&bin(b"base"), &bin(b"entry"))
        .expect("insert succeeds");
    let before = tree.checksum().expect("checksum succeeds");
    tree.insert(&bin(b"k"), &bin(b"v")).expect("insert succeeds");
    let after_insert = tree.checksum().expect("checksum succeeds");
    assert_ne!(before, after_insert);
    tree.remove(&bin(b"k")).expect("remove succeeds");
    let after_remove = tree.checksum().expect("checksum succeeds");
    assert_ne!(after_insert, after_remove);
}

#[test]
fn distinct_keys_are_all_stored() {
    let db = temp_db("/tmp/sled_nif_many");
    let tree = db.tree_open(&"t".to_string()).expect("tree opens");
    for i in 0u8..20 {
        let key = vec![b'k', i];
        let value = vec![b'v', i];
        assert_eq!(tree.insert(&bin(&key), &bin(&value)), Ok(None));
    }
    for i in 0u8..20 {
        let key = vec![b'k', i];
        let value = vec![b'v', i];
        assert_eq!(tree.get(&bin(&key)), Ok(Some(bin(&value))));
    }
}

#[test]
fn open_records_the_path() {
    let path = "/tmp/sled_nif_open_by_path".to_string();
    let db = open(&path).expect("the engine opens a database by path");
    assert_eq!(db.path, path);
    // Recovery depends on whether the path already held a database.
    let _ = db.was_recovered();
    assert!(db.size_on_disk().is_ok());
    assert!(db.checksum().is_ok());
}

#[test]
fn tree_names_lists_opened_keyspaces() {
    let db = temp_db("/tmp/sled_nif_names");
    let _tree = db.tree_open(&"named".to_string()).expect("tree opens");
    let names = db.tree_names();
    let has_named = names.iter().any(|n| decode(n) == b"named");
    let has_default = names.iter().any(|n| decode(n) == b"__sled__default");
    assert!(has_named);
    assert!(has_default);
}

#[test]
fn flush_reports_bytes_written() {
    let db = temp_db("/tmp/sled_nif_flush");
    let tree = db.tree_open(&"t".to_string()).expect("tree opens");
    tree.insert(&bin(b"k"), &bin(b"v")).expect("insert succeeds");
    assert!(tree.flush().is_ok());
}
