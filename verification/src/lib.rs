//! A concurrent interning table that maps a composite struct identifier (an
//! address-scoped module name plus a struct name) to a small stable integer
//! handle, and back.
//!
//! The table guarantees that two equal identifiers always receive the same
//! handle, that handles are assigned densely from zero within an epoch, and
//! that no entry is ever silently evicted. The sequential core lives in
//! [`index_map::IndexMap`]; [`interner::StructNameIndexMap`] wraps it in a
//! reader-writer lock whose invariant is the core's well-formedness, so the
//! insert-or-get path holds exclusive access for its whole critical section.

pub mod errors;
pub mod index_map;
pub mod interner;
pub mod model;
pub mod types;

pub use errors::TableError;
pub use index_map::IndexMap;
pub use interner::StructNameIndexMap;
pub use types::{ModuleId, StructIdentifier, StructNameIndex, StructTag, TypeTag};
