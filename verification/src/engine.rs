//! The trusted boundary to the storage engine. Everything here either
//! declares an engine type opaquely or wraps exactly one engine call;
//! nothing else in the crate touches the engine directly. The engine's
//! results depend on on-disk and in-memory state, so the wrappers
//! promise nothing about which value comes back beyond what the
//! engine's source fixes as a function of the arguments alone; the
//! verified callers state what holds of every outcome.

use vstd::prelude::*;

use crate::config::DbConfig;
use crate::errors::NativeError;
use crate::facade::default_tree_name;

verus! {

#[verifier::external_type_specification]
#[verifier::external_body]
pub struct ExSledDb(sled::Db);

#[verifier::external_type_specification]
#[verifier::external_body]
pub struct ExSledTree(sled::Tree);

#[verifier::external_type_specification]
#[verifier::external_body]
pub struct ExSledConfig(sled::Config);

#[verifier::external_type_specification]
#[verifier::external_body]
pub struct ExSledError(sled::Error);

/// An engine configuration paired with a record of the options set on
/// it so far. Only the trusted constructor and setters below produce
/// or change one; each updates the opaque engine value and the record
/// side by side and states so in its contract, so a verified builder's
/// result is pinned to the options it was given.
pub struct EngineConfig {
    pub raw: sled::Config,
    pub model: DbConfig,
}

/// Relies on sled::open: opens (creating if absent) a database at the
/// path, with the engine's default configuration.
#[verifier::external_body]
pub(crate) fn db_open(path: &str) -> (r: Result<sled::Db, sled::Error>) {
    sled::open(path)
}

/// Relies on sled::Db::clone: another handle to the same shared engine
/// instance (the engine reference-counts internally); no on-disk state
/// is duplicated.
#[verifier::external_body]
pub(crate) fn db_clone(db: &sled::Db) -> (r: sled::Db) {
    db.clone()
}

/// Relies on sled::Config::new: the engine's default configuration,
/// with no option explicitly set yet.
#[verifier::external_body]
pub(crate) fn config_new() -> (r: EngineConfig)
    ensures
        r.model.cache_capacity is None,
        r.model.flush_every_ms is None,
        r.model.use_compression is None,
        r.model.compression_factor is None,
        r.model.segment_size is None,
        r.model.create_new is None,
        r.model.temporary is None,
        r.model.print_profile_on_drop is None,
{
    EngineConfig {
        raw: sled::Config::new(),
        model: DbConfig {
            path: String::new(),
            cache_capacity: None,
            flush_every_ms: None,
            use_compression: None,
            compression_factor: None,
            segment_size: None,
            create_new: None,
            temporary: None,
            print_profile_on_drop: None,
        },
    }
}

/// Relies on sled::Config::path: sets the database path. The engine's
/// path setter panics on a configuration that is already shared; every
/// wrapper here moves the one configuration it was handed and the
/// opaque type cannot be cloned from verified code, so no sharing can
/// arise before the open.
#[verifier::external_body]
pub(crate) fn config_path(c: EngineConfig, path: &str) -> (r: EngineConfig)
    ensures
        r.model.path@ == path@,
        r.model.cache_capacity == c.model.cache_capacity,
        r.model.flush_every_ms == c.model.flush_every_ms,
        r.model.use_compression == c.model.use_compression,
        r.model.compression_factor == c.model.compression_factor,
        r.model.segment_size == c.model.segment_size,
        r.model.create_new == c.model.create_new,
        r.model.temporary == c.model.temporary,
        r.model.print_profile_on_drop == c.model.print_profile_on_drop,
{
    EngineConfig {
        raw: c.raw.path(path),
        model: DbConfig { path: path.to_string(), ..c.model },
    }
}

/// Relies on sled::Config::cache_capacity: sets the page-cache bound
/// in bytes.
#[verifier::external_body]
pub(crate) fn config_cache_capacity(c: EngineConfig, v: u64) -> (r: EngineConfig)
    ensures
        r.model == (DbConfig { cache_capacity: Some(v), ..c.model }),
{
    EngineConfig {
        raw: c.raw.cache_capacity(v),
        model: DbConfig { cache_capacity: Some(v), ..c.model },
    }
}

/// Relies on sled::Config::flush_every_ms: sets the automatic flush
/// interval.
#[verifier::external_body]
pub(crate) fn config_flush_every_ms(c: EngineConfig, ms: u64) -> (r: EngineConfig)
    ensures
        r.model == (DbConfig { flush_every_ms: Some(ms), ..c.model }),
{
    EngineConfig {
        raw: c.raw.flush_every_ms(Some(ms)),
        model: DbConfig { flush_every_ms: Some(ms), ..c.model },
    }
}

/// Relies on sled::Config::use_compression: enables or disables
/// on-disk compression.
#[verifier::external_body]
pub(crate) fn config_use_compression(c: EngineConfig, b: bool) -> (r: EngineConfig)
    ensures
        r.model == (DbConfig { use_compression: Some(b), ..c.model }),
{
    EngineConfig {
        raw: c.raw.use_compression(b),
        model: DbConfig { use_compression: Some(b), ..c.model },
    }
}

/// Relies on sled::Config::compression_factor: sets the compression
/// level, which the engine documents as running from 1 through 22.
#[verifier::external_body]
pub(crate) fn config_compression_factor(c: EngineConfig, f: u64) -> (r: EngineConfig)
    requires
        1 <= f <= 22,
    ensures
        r.model == (DbConfig { compression_factor: Some(f), ..c.model }),
{
    EngineConfig {
        raw: c.raw.compression_factor(f as i32),
        model: DbConfig { compression_factor: Some(f), ..c.model },
    }
}

/// Relies on sled::Config::segment_size: sets the log segment size in
/// bytes.
#[verifier::external_body]
pub(crate) fn config_segment_size(c: EngineConfig, s: u64) -> (r: EngineConfig)
    requires
        s <= usize::MAX,
    ensures
        r.model == (DbConfig { segment_size: Some(s), ..c.model }),
{
    EngineConfig {
        raw: c.raw.segment_size(s as usize),
        model: DbConfig { segment_size: Some(s), ..c.model },
    }
}

/// Relies on sled::Config::create_new: demands exclusive creation,
/// failing the open if the database already exists.
#[verifier::external_body]
pub(crate) fn config_create_new(c: EngineConfig, b: bool) -> (r: EngineConfig)
    ensures
        r.model == (DbConfig { create_new: Some(b), ..c.model }),
{
    EngineConfig {
        raw: c.raw.create_new(b),
        model: DbConfig { create_new: Some(b), ..c.model },
    }
}

/// Relies on sled::Config::temporary: deletes the database files when
/// the last reference to the configuration is dropped.
#[verifier::external_body]
pub(crate) fn config_temporary(c: EngineConfig, b: bool) -> (r: EngineConfig)
    ensures
        r.model == (DbConfig { temporary: Some(b), ..c.model }),
{
    EngineConfig {
        raw: c.raw.temporary(b),
        model: DbConfig { temporary: Some(b), ..c.model },
    }
}

/// Relies on sled::Config::print_profile_on_drop: prints a performance
/// profile when the configuration is dropped.
#[verifier::external_body]
pub(crate) fn config_print_profile_on_drop(c: EngineConfig, b: bool) -> (r: EngineConfig)
    ensures
        r.model == (DbConfig { print_profile_on_drop: Some(b), ..c.model }),
{
    EngineConfig {
        raw: c.raw.print_profile_on_drop(b),
        model: DbConfig { print_profile_on_drop: Some(b), ..c.model },
    }
}

/// Relies on sled::Config::open: opens the database this configuration
/// describes, with exactly the options set on it. This is where I/O
/// happens; the builder itself never touches the filesystem.
#[verifier::external_body]
pub(crate) fn config_open(c: &EngineConfig) -> (r: Result<sled::Db, sled::Error>) {
    c.raw.open()
}

/// Relies on sled::Db::checksum: the CRC32 of all keys and values in
/// the whole database, an engine-version-scoped integrity value.
#[verifier::external_body]
pub(crate) fn db_checksum(db: &sled::Db) -> (r: Result<u32, sled::Error>) {
    db.checksum()
}

/// Relies on sled::Db::size_on_disk: the current on-disk footprint in
/// bytes, best-effort.
#[verifier::external_body]
pub(crate) fn db_size_on_disk(db: &sled::Db) -> (r: Result<u64, sled::Error>) {
    db.size_on_disk()
}

/// Relies on sled::Db::was_recovered: whether the engine replayed a
/// crash-recovery log when it opened.
#[verifier::external_body]
pub(crate) fn db_was_recovered(db: &sled::Db) -> (r: bool) {
    db.was_recovered()
}

/// Relies on sled::Db::open_tree: opens, creating if absent, the named
/// keyspace; repeated calls with one name address the same keyspace.
#[verifier::external_body]
pub(crate) fn db_open_tree(db: &sled::Db, name: &str) -> (r: Result<sled::Tree, sled::Error>) {
    db.open_tree(name)
}

/// Relies on sled::Db::drop_tree: destructively removes the named
/// keyspace, reporting whether it existed. The engine's source fixes,
/// as a function of the name alone, that removing its default tree is
/// rejected with an unsupported-operation error.
#[verifier::external_body]
pub(crate) fn db_drop_tree(db: &sled::Db, name: &str) -> (r: Result<bool, sled::Error>)
    ensures
        name@ == "__sled__default"@ ==> r is Err,
{
    db.drop_tree(name)
}

/// Relies on sled::Db::tree_names: the names of all keyspaces in the
/// engine's internal enumeration order. The engine's source fixes that
/// the names are the keys of its keyspace map — pairwise distinct —
/// and that the default tree is always among them.
#[verifier::external_body]
pub(crate) fn db_tree_names(db: &sled::Db) -> (r: Vec<Vec<u8>>)
    ensures
        forall|i: int, j: int|
            #![trigger r@[i], r@[j]]
            0 <= i < j < r@.len() ==> r@[i]@ != r@[j]@,
        exists|i: int| 0 <= i < r@.len() && (#[trigger] r@[i])@ == default_tree_name(),
{
    let names = db.tree_names();
    let mut out = Vec::with_capacity(names.len());
    for name in names {
        out.push(name.to_vec());
    }
    out
}

/// Relies on sled::Tree::checksum: the CRC32 of this keyspace's keys
/// and values.
#[verifier::external_body]
pub(crate) fn tree_checksum(t: &sled::Tree) -> (r: Result<u32, sled::Error>) {
    t.checksum()
}

/// Relies on sled::Tree::flush: blocks until buffered writes are
/// durable, returning the number of bytes flushed.
#[verifier::external_body]
pub(crate) fn tree_flush(t: &sled::Tree) -> (r: Result<usize, sled::Error>) {
    t.flush()
}

/// Relies on sled::Tree::insert: upserts the key, returning the prior
/// value if one was set.
#[verifier::external_body]
pub(crate) fn tree_insert(t: &sled::Tree, key: &[u8], value: &[u8]) -> (r: Result<
    Option<Vec<u8>>,
    sled::Error,
>) {
    match t.insert(key, value) {
        Ok(prev) => Ok(prev.map(|v| v.to_vec())),
        Err(e) => Err(e),
    }
}

/// Relies on sled::Tree::get: reads the key's value; a missing key is
/// `Ok(None)`, not an error.
#[verifier::external_body]
pub(crate) fn tree_get(t: &sled::Tree, key: &[u8]) -> (r: Result<Option<Vec<u8>>, sled::Error>) {
    match t.get(key) {
        Ok(v) => Ok(v.map(|v| v.to_vec())),
        Err(e) => Err(e),
    }
}

/// Relies on sled::Tree::remove: deletes the key, returning what was
/// removed; a missing key is `Ok(None)`, not an error.
#[verifier::external_body]
pub(crate) fn tree_remove(t: &sled::Tree, key: &[u8]) -> (r: Result<Option<Vec<u8>>, sled::Error>) {
    match t.remove(key) {
        Ok(v) => Ok(v.map(|v| v.to_vec())),
        Err(e) => Err(e),
    }
}

/// Relies on sled::Error having exactly these five kinds; each arm
/// moves the engine's diagnostic detail into plain values.
#[verifier::external_body]
pub(crate) fn native_error_of(e: sled::Error) -> (r: NativeError) {
    match e {
        sled::Error::CollectionNotFound(name) => NativeError::CollectionNotFound(name.to_vec()),
        sled::Error::Unsupported(msg) => NativeError::Unsupported(msg),
        sled::Error::ReportableBug(msg) => NativeError::ReportableBug(msg),
        sled::Error::Io(ioe) => NativeError::Io(ioe.to_string()),
        sled::Error::Corruption { at, .. } => NativeError::Corruption(format!("{:?}", at)),
    }
}

} // verus!
