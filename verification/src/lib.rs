//! A binding layer that exposes an embedded, ordered key-value storage
//! engine to a managed host runtime across a safe foreign-function
//! boundary: byte-buffer bridging, error translation, resource-handle
//! bookkeeping, configuration building, and the boundary-callable
//! operation facade.

pub mod bytes;
pub mod config;
mod engine;
pub mod errors;
pub mod facade;
pub mod registry;
