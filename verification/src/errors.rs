//! Error translation: maps the storage engine's error taxonomy onto a
//! boundary-safe result representation with stable, typed tags, so that
//! host-side callers can branch on the failure kind instead of parsing
//! free-text messages. The original diagnostic text travels along as
//! auxiliary detail.

use vstd::prelude::*;

use crate::registry::ResourceKind;

verus! {

/// The engine's own error taxonomy, held as plain values once the
/// opaque native error has been read out at the trusted boundary.
#[derive(Debug, Clone, PartialEq, Eq)]
pub enum NativeError {
    /// A keyspace that an operation addressed no longer exists; the
    /// engine reports the affected collection's name.
    CollectionNotFound(Vec<u8>),
    /// The engine was used in a way its current configuration does not
    /// support.
    Unsupported(String),
    /// An internal engine invariant was violated (a reportable bug).
    ReportableBug(String),
    /// A read or write failed when the engine touched the file system.
    Io(String),
    /// Corruption was detected in the storage file during a read.
    Corruption(String),
}

/// A configuration validation failure, detected before any I/O is
/// attempted.
#[derive(Debug, Clone, PartialEq, Eq)]
pub enum ConfigError {
    /// An option key that the builder does not recognize; silently
    /// ignoring a typo in a durability-affecting setting would be a
    /// correctness hazard, so the offending key is reported.
    UnknownKey(String),
    /// A recognized key whose value has the wrong shape.
    WrongType(String),
    /// A recognized key whose value lies outside the range the engine
    /// accepts.
    OutOfRange(String),
    /// The required target path was never supplied.
    MissingPath,
}

/// The boundary-visible error taxonomy. Every fallible boundary
/// operation returns one of these stable tags; no operation signals
/// failure by terminating the host process.
#[derive(Debug, Clone, PartialEq, Eq)]
pub enum BoundaryError {
    /// An I/O failure inside the engine, with the underlying OS error
    /// detail.
    Io(String),
    /// Data corruption detected during a read.
    Corruption(String),
    /// Retryable contention: the keyspace an operation addressed was
    /// concurrently removed; carries the affected keyspace's name.
    Collision(Vec<u8>),
    /// An internal engine invariant violation (a reportable bug).
    InternalBug(String),
    /// The operation is unsupported under the current configuration.
    Unsupported(String),
    /// A configuration option set failed validation; no I/O was
    /// attempted.
    ConfigValidation(ConfigError),
    /// A resource handle of the wrong kind (or an invalidated one) was
    /// passed where `expected` was required; `found` is the kind the
    /// handle actually had, if it was live at all.
    WrongResourceKind { expected: ResourceKind, found: Option<ResourceKind> },
    /// A native panic was caught at the call boundary and converted
    /// into a reportable error instead of crashing the host.
    PanicIsolated(String),
}

impl ConfigError {
    /// Tags a validation failure for the boundary: configuration
    /// errors cross the boundary under their own stable tag, distinct
    /// from every engine failure.
    pub fn into_boundary(self) -> (b: BoundaryError)
        ensures
            b == BoundaryError::ConfigValidation(self),
    {
        BoundaryError::ConfigValidation(self)
    }
}

/// What the translator owes: each native error kind maps to its own
/// stable boundary tag, detail preserved.
pub open spec fn translate_spec(e: NativeError) -> BoundaryError {
    match e {
        NativeError::CollectionNotFound(name) => BoundaryError::Collision(name),
        NativeError::Unsupported(detail) => BoundaryError::Unsupported(detail),
        NativeError::ReportableBug(detail) => BoundaryError::InternalBug(detail),
        NativeError::Io(detail) => BoundaryError::Io(detail),
        NativeError::Corruption(detail) => BoundaryError::Corruption(detail),
    }
}

/// True of exactly the boundary tags that stand for an engine-reported
/// failure (as opposed to validation, wrong-kind or panic-isolation
/// failures, which this layer raises itself before or around the
/// engine call).
pub open spec fn is_engine_error(b: BoundaryError) -> bool {
    ||| b is Io
    ||| b is Corruption
    ||| b is Collision
    ||| b is InternalBug
    ||| b is Unsupported
}

/// Every translated native error carries an engine tag, never one of
/// the tags this layer reserves for its own pre-I/O failures.
pub proof fn lemma_translate_is_engine_error(e: NativeError)
    ensures
        is_engine_error(translate_spec(e)),
{
}

/// The boundary tag identifies the native kind exactly: each native
/// error kind maps to its own tag and to no other, so host-side
/// callers can branch on the tag alone.
pub proof fn lemma_translate_tags_distinct(e: NativeError)
    ensures
        translate_spec(e) is Io <==> e is Io,
        translate_spec(e) is Corruption <==> e is Corruption,
        translate_spec(e) is Collision <==> e is CollectionNotFound,
        translate_spec(e) is InternalBug <==> e is ReportableBug,
        translate_spec(e) is Unsupported <==> e is Unsupported,
{
}

/// Maps one native error to its boundary tag.
pub fn translate(e: NativeError) -> (b: BoundaryError)
    ensures
        b == translate_spec(e),
{
    match e {
        NativeError::CollectionNotFound(name) => BoundaryError::Collision(name),
        NativeError::Unsupported(detail) => BoundaryError::Unsupported(detail),
        NativeError::ReportableBug(detail) => BoundaryError::InternalBug(detail),
        NativeError::Io(detail) => BoundaryError::Io(detail),
        NativeError::Corruption(detail) => BoundaryError::Corruption(detail),
    }
}

/// What translating a whole native result owes: success passes through
/// unchanged, failure is mapped to its boundary tag. In particular a
/// successful result is never turned into an error, so "succeeded with
/// no matching entry" can never be conflated with "failed".
pub open spec fn translate_result_spec<T>(r: Result<T, NativeError>) -> Result<T, BoundaryError> {
    match r {
        Ok(v) => Ok(v),
        Err(e) => Err(translate_spec(e)),
    }
}

/// Translates a native result into a boundary result.
pub fn translate_result<T>(r: Result<T, NativeError>) -> (out: Result<T, BoundaryError>)
    ensures
        out == translate_result_spec(r),
{
    match r {
        Ok(v) => Ok(v),
        Err(e) => Err(translate(e)),
    }
}

} // verus!
