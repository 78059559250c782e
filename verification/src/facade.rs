//! Operation facade: the boundary-callable operations. Each one
//! decodes its arguments, delegates to the engine through the trusted
//! boundary, translates the result, and encodes what goes back. The
//! engine's answers depend on disk and concurrent state, so each
//! operation states what holds of every outcome: bookkeeping on the
//! handles is preserved, success never turns into failure, and every
//! failure carries an engine tag.

use vstd::prelude::*;

use crate::bytes::{encode, decode, bin_from_vec, Bin};
use crate::config::DbConfig;
use crate::engine;

pub use crate::engine::EngineConfig;
use crate::errors::{
    translate,
    translate_spec,
    translate_result,
    is_engine_error,
    lemma_translate_is_engine_error,
    NativeError,
    BoundaryError,
};

verus! {

/// The name of the engine's default keyspace, as bytes: the ASCII of
/// `__sled__default`.
pub open spec fn default_tree_name() -> Seq<u8> {
    seq![
        95u8,
        95u8,
        115u8,
        108u8,
        101u8,
        100u8,
        95u8,
        95u8,
        100u8,
        101u8,
        102u8,
        97u8,
        117u8,
        108u8,
        116u8,
    ]
}

/// A database handle: a shared reference to one engine instance plus
/// the path it was opened from, kept for later inspection. Cloning a
/// handle shares the instance; the engine closes its files only when
/// its own internal reference count reaches zero.
pub struct DbHandle {
    pub db: sled::Db,
    pub path: String,
}

/// A tree handle: a shared reference to one named keyspace. It retains
/// the owning database handle — not merely a view of it — so the
/// database outlives every tree opened from it, and it retains the
/// tree's name for identification.
pub struct TreeHandle {
    pub tree: sled::Tree,
    pub db: DbHandle,
    pub name: String,
}

/// Maps an engine error to its boundary tag; the result always carries
/// one of the engine tags, never a tag this layer reserves for its own
/// pre-I/O failures.
fn boundary_error_of(se: sled::Error) -> (b: BoundaryError)
    ensures
        is_engine_error(b),
{
    let ne = engine::native_error_of(se);
    proof {
        lemma_translate_is_engine_error(ne);
    }
    translate(ne)
}

/// Reads the opaque engine error out of a raw engine result, leaving
/// success untouched.
fn native_result<T>(r: Result<T, sled::Error>) -> (out: Result<T, NativeError>)
    ensures
        r matches Ok(v) ==> out == Ok::<T, NativeError>(v),
        r is Err <==> out is Err,
{
    match r {
        Ok(v) => Ok(v),
        Err(se) => Err(engine::native_error_of(se)),
    }
}

/// Completes a fetch-class operation (insert, get, remove): the
/// returned payload, if any, is copied into a host-owned binary term,
/// and the error, if any, is translated to its boundary tag. Absence
/// stays absence — a successful result with no matching entry is never
/// conflated with a failure.
pub fn finish_fetch(r: Result<Option<Vec<u8>>, NativeError>) -> (out: Result<
    Option<Bin>,
    BoundaryError,
>)
    ensures
        out is Ok <==> r is Ok,
        r matches Ok(Some(v)) ==> (out matches Ok(Some(b)) && b@ == v@),
        r matches Ok(None) ==> out matches Ok(None),
        r matches Err(e) ==> out == Err::<Option<Bin>, BoundaryError>(translate_spec(e)),
{
    match r {
        Ok(Some(v)) => Ok(Some(bin_from_vec(v))),
        Ok(None) => Ok(None),
        Err(e) => Err(translate(e)),
    }
}

/// Encodes each engine-owned name as a host-owned binary term, in
/// order.
pub fn encode_all(items: &Vec<Vec<u8>>) -> (r: Vec<Bin>)
    ensures
        r@.len() == items@.len(),
        forall|i: int| 0 <= i < items@.len() ==> (#[trigger] r@[i])@ == items@[i]@,
{
    let mut out: Vec<Bin> = Vec::new();
    let mut i: usize = 0;
    while i < items.len()
        invariant
            i <= items@.len(),
            out@.len() == i,
            forall|j: int| 0 <= j < i ==> (#[trigger] out@[j])@ == items@[j]@,
        decreases items@.len() - i,
    {
        let item: &Vec<u8> = &items[i];
        out.push(encode(item.as_slice()));
        i = i + 1;
    }
    out
}

/// Opens (creating if absent) a database at the path with the engine's
/// default configuration, recording the opened path on the handle.
pub fn open(path: &String) -> (r: Result<DbHandle, BoundaryError>)
    ensures
        r matches Ok(h) ==> h.path@ == path@,
        r matches Err(e) ==> is_engine_error(e),
{
    match engine::db_open(path.as_str()) {
        Ok(db) => Ok(DbHandle { db, path: path.clone() }),
        Err(se) => Err(boundary_error_of(se)),
    }
}

/// The engine configuration's option record carries exactly the
/// validated options: the same path and, option by option, the same
/// explicitly-set-or-absent value.
pub open spec fn carries_options(m: DbConfig, c: DbConfig) -> bool {
    &&& m.path@ == c.path@
    &&& m.cache_capacity == c.cache_capacity
    &&& m.flush_every_ms == c.flush_every_ms
    &&& m.use_compression == c.use_compression
    &&& m.compression_factor == c.compression_factor
    &&& m.segment_size == c.segment_size
    &&& m.create_new == c.create_new
    &&& m.temporary == c.temporary
    &&& m.print_profile_on_drop == c.print_profile_on_drop
}

/// Builds the engine configuration a validated option set describes:
/// the path and each explicitly set option are wired to the engine
/// setter of the same meaning, an absent option is left to the
/// engine's default, and the result's option record carries exactly
/// the validated options.
pub fn engine_config_of(c: &DbConfig) -> (ec: EngineConfig)
    requires
        c.wf(),
    ensures
        carries_options(ec.model, *c),
{
    let mut ec = engine::config_new();
    ec = engine::config_path(ec, c.path.as_str());
    if let Some(v) = c.cache_capacity {
        ec = engine::config_cache_capacity(ec, v);
    }
    if let Some(ms) = c.flush_every_ms {
        ec = engine::config_flush_every_ms(ec, ms);
    }
    if let Some(b) = c.use_compression {
        ec = engine::config_use_compression(ec, b);
    }
    if let Some(f) = c.compression_factor {
        ec = engine::config_compression_factor(ec, f);
    }
    if let Some(s) = c.segment_size {
        ec = engine::config_segment_size(ec, s);
    }
    if let Some(b) = c.create_new {
        ec = engine::config_create_new(ec, b);
    }
    if let Some(b) = c.temporary {
        ec = engine::config_temporary(ec, b);
    }
    if let Some(b) = c.print_profile_on_drop {
        ec = engine::config_print_profile_on_drop(ec, b);
    }
    ec
}

/// Opens the database a validated configuration describes: the engine
/// is handed a configuration carrying exactly the validated options
/// (see `engine_config_of`), and the configured path is recorded on
/// the handle.
pub fn config_open(c: &DbConfig) -> (r: Result<DbHandle, BoundaryError>)
    requires
        c.wf(),
    ensures
        r matches Ok(h) ==> h.path@ == c.path@,
        r matches Err(e) ==> is_engine_error(e),
{
    let ec = engine_config_of(c);
    match engine::config_open(&ec) {
        Ok(db) => Ok(DbHandle { db, path: c.path.clone() }),
        Err(se) => Err(boundary_error_of(se)),
    }
}

impl DbHandle {
    /// The CRC32-style checksum of the entire engine state: an
    /// engine-version-scoped integrity value, not a portable content
    /// hash.
    pub fn checksum(&self) -> (r: Result<u32, BoundaryError>)
        ensures
            r matches Err(e) ==> is_engine_error(e),
    {
        let native = native_result(engine::db_checksum(&self.db));
        let ghost g = native;
        let out = translate_result(native);
        proof {
            if g is Err {
                lemma_translate_is_engine_error(g->Err_0);
            }
        }
        out
    }

    /// The current on-disk footprint in bytes; best-effort, and it may
    /// lag mutations not yet flushed.
    pub fn size_on_disk(&self) -> (r: Result<u64, BoundaryError>)
        ensures
            r matches Err(e) ==> is_engine_error(e),
    {
        let native = native_result(engine::db_size_on_disk(&self.db));
        let ghost g = native;
        let out = translate_result(native);
        proof {
            if g is Err {
                lemma_translate_is_engine_error(g->Err_0);
            }
        }
        out
    }

    /// Whether the engine detected and replayed a crash-recovery log
    /// when it opened.
    pub fn was_recovered(&self) -> bool {
        engine::db_was_recovered(&self.db)
    }

    /// Opens, creating if absent, the named keyspace. Idempotent:
    /// repeated calls with one name address the same keyspace. The
    /// returned handle retains this database handle (same recorded
    /// path) and the name it was opened under.
    pub fn tree_open(&self, name: &String) -> (r: Result<TreeHandle, BoundaryError>)
        ensures
            r matches Ok(t) ==> t.name@ == name@ && t.db.path@ == self.path@,
            r matches Err(e) ==> is_engine_error(e),
    {
        match engine::db_open_tree(&self.db, name.as_str()) {
            Ok(tree) => Ok(
                TreeHandle {
                    tree,
                    db: DbHandle { db: engine::db_clone(&self.db), path: self.path.clone() },
                    name: name.clone(),
                },
            ),
            Err(se) => Err(boundary_error_of(se)),
        }
    }

    /// Destructively and irreversibly removes the named keyspace,
    /// reporting whether it existed. The engine rejects removing its
    /// default tree; that rejection surfaces as a typed engine error,
    /// never a crash.
    pub fn tree_drop(&self, name: &String) -> (r: Result<bool, BoundaryError>)
        ensures
            r matches Err(e) ==> is_engine_error(e),
            name@ == "__sled__default"@ ==> r is Err,
    {
        let native = native_result(engine::db_drop_tree(&self.db, name.as_str()));
        let ghost g = native;
        let out = translate_result(native);
        proof {
            if g is Err {
                lemma_translate_is_engine_error(g->Err_0);
            }
        }
        out
    }

    /// The names of all keyspaces, each copied into a host-owned
    /// binary term, in the engine's internal enumeration order: the
    /// names are pairwise distinct and the default tree is always
    /// among them.
    pub fn tree_names(&self) -> (r: Vec<Bin>)
        ensures
            forall|i: int, j: int|
                #![trigger r@[i], r@[j]]
                0 <= i < j < r@.len() ==> r@[i]@ != r@[j]@,
            exists|i: int| 0 <= i < r@.len() && (#[trigger] r@[i])@ == default_tree_name(),
    {
        let names = engine::db_tree_names(&self.db);
        let out = encode_all(&names);
        proof {
            assert forall|i: int, j: int|
                #![trigger out@[i], out@[j]]
                0 <= i < j < out@.len() implies out@[i]@ != out@[j]@ by {
                assert(out@[i]@ == names@[i]@);
                assert(out@[j]@ == names@[j]@);
            }
            let k = choose|i: int|
                0 <= i < names@.len() && (#[trigger] names@[i])@ == default_tree_name();
            assert(out@[k]@ == names@[k]@);
        }
        out
    }
}

impl TreeHandle {
    /// The CRC32-style checksum over this keyspace's contents only.
    pub fn checksum(&self) -> (r: Result<u32, BoundaryError>)
        ensures
            r matches Err(e) ==> is_engine_error(e),
    {
        let native = native_result(engine::tree_checksum(&self.tree));
        let ghost g = native;
        let out = translate_result(native);
        proof {
            if g is Err {
                lemma_translate_is_engine_error(g->Err_0);
            }
        }
        out
    }

    /// Forces durable persistence of buffered writes for this tree,
    /// returning the number of bytes flushed; blocking.
    pub fn flush(&self) -> (r: Result<usize, BoundaryError>)
        ensures
            r matches Err(e) ==> is_engine_error(e),
    {
        let native = native_result(engine::tree_flush(&self.tree));
        let ghost g = native;
        let out = translate_result(native);
        proof {
            if g is Err {
                lemma_translate_is_engine_error(g->Err_0);
            }
        }
        out
    }

    /// Upsert: stores the value under the key, silently overwriting,
    /// and returns the prior value if one was set — absence of a prior
    /// value is success, not an error.
    pub fn insert(&self, key: &Bin, value: &Bin) -> (r: Result<Option<Bin>, BoundaryError>)
        ensures
            r matches Err(e) ==> is_engine_error(e),
    {
        let native = native_result(engine::tree_insert(&self.tree, decode(key), decode(value)));
        let ghost g = native;
        let out = finish_fetch(native);
        proof {
            if g is Err {
                lemma_translate_is_engine_error(g->Err_0);
            }
        }
        out
    }

    /// Reads the key's value; a missing key is absence, not an error.
    pub fn get(&self, key: &Bin) -> (r: Result<Option<Bin>, BoundaryError>)
        ensures
            r matches Err(e) ==> is_engine_error(e),
    {
        let native = native_result(engine::tree_get(&self.tree, decode(key)));
        let ghost g = native;
        let out = finish_fetch(native);
        proof {
            if g is Err {
                lemma_translate_is_engine_error(g->Err_0);
            }
        }
        out
    }

    /// Deletes the key, returning what was removed, if anything; a
    /// missing key is absence, not an error.
    pub fn remove(&self, key: &Bin) -> (r: Result<Option<Bin>, BoundaryError>)
        ensures
            r matches Err(e) ==> is_engine_error(e),
    {
        let native = native_result(engine::tree_remove(&self.tree, decode(key)));
        let ghost g = native;
        let out = finish_fetch(native);
        proof {
            if g is Err {
                lemma_translate_is_engine_error(g->Err_0);
            }
        }
        out
    }
}

/// The boundary-callable operations, named for scheduling purposes.
#[derive(Debug, Clone, Copy, PartialEq, Eq, Structural)]
pub enum Operation {
    ConfigNew,
    ConfigOpen,
    Open,
    DbChecksum,
    SizeOnDisk,
    WasRecovered,
    TreeOpen,
    TreeDrop,
    TreeNames,
    TreeChecksum,
    Flush,
    Insert,
    Get,
    Remove,
}

/// Where an operation may run: on the host runtime's own scheduling
/// threads, or on the worker pool reserved for potentially blocking
/// work.
#[derive(Debug, Clone, Copy, PartialEq, Eq, Structural)]
pub enum ScheduleClass {
    Host,
    BlockingIo,
}

/// Whether an operation may block the calling thread on disk I/O.
/// Building a configuration is pure validation; every other operation
/// reaches the engine and may touch the filesystem.
pub open spec fn may_block(op: Operation) -> bool {
    !(op is ConfigNew)
}

/// The scheduling class each operation declares. Every operation that
/// may block on I/O must run on the blocking worker pool, never on the
/// host runtime's latency-sensitive scheduling threads — a hard
/// requirement, not an optimization.
pub fn schedule_class(op: Operation) -> (c: ScheduleClass)
    ensures
        (c is BlockingIo) <==> may_block(op),
{
    match op {
        Operation::ConfigNew => ScheduleClass::Host,
        _ => ScheduleClass::BlockingIo,
    }
}

} // verus!
